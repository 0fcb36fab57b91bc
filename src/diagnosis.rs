//! Turning the outcome of one dispatch into advice for the operator.
//!
//! Matching on the tool's error text is heuristic: the phrases and what they
//! point at are kept as a table, apart from the matching itself.
use vstd::prelude::*;
use vstd::string::*;
use crate::environment::EnvironmentState;
use crate::text::contains_exactly;

verus! {

/// What an attempt to type ended in.
pub enum DispatchOutcome {
    /// The tool ran and exited with success.
    Success,
    /// The program could not be started; holds the system's message.
    SpawnFailed(String),
    /// The program ran and exited with failure; holds its error output.
    ExitedWithError(String),
}

/// The likely cause of a failed dispatch.
#[derive(Clone, Copy, Debug, PartialEq, Eq, Structural)]
pub enum Category {
    /// The host's input daemon cannot be reached through its socket.
    ServiceNotRunning,
    /// The sandbox broker is missing or may not talk to the host.
    SandboxPermissionMissing,
    /// The tool, or the broker in front of it, could not be started.
    ToolNotInstalled,
    /// Nothing known matched.
    Unknown,
}

/// Advice for the operator's log; it never changes whether typing failed.
pub struct DiagnosticReport {
    pub category: Category,
    pub message: String,
}

impl View for DiagnosticReport {
    type V = (Category, Seq<char>);

    open spec fn view(&self) -> (Category, Seq<char>) {
        (self.category, self.message@)
    }
}

/// A report, if any, as its category and message text.
pub open spec fn report_view(r: Option<DiagnosticReport>) -> Option<(Category, Seq<char>)> {
    match r {
        Some(d) => Some(d@),
        None => None,
    }
}

pub const SERVICE_GUIDANCE: &'static str =
    "ydotoold daemon may not be running; try: systemctl start ydotoold (or run ydotoold in a terminal)";

pub const PERMISSION_GUIDANCE: &'static str =
    "flatpak-spawn may not be available; the Flatpak needs --talk-name=org.freedesktop.Flatpak permission";

pub const HOST_INSTALL_GUIDANCE: &'static str =
    "make sure ydotool is installed on the HOST system, not in the sandbox; also check: flatpak override --user --talk-name=org.freedesktop.Flatpak me.amankhanna.opendeck";

pub const NATIVE_INSTALL_GUIDANCE: &'static str =
    "make sure ydotool is installed: sudo apt install ydotool";

/// Put before the raw error output when no phrase matched.
pub const UNKNOWN_PREFIX: &'static str = "ydotool failed: ";

/// `c` equals `m` once an ASCII capital in `c` is lowered.
pub open spec fn folds_to(c: char, m: char) -> bool {
    if 'A' <= c && c <= 'Z' {
        c as int + 32 == m as int
    } else {
        c == m
    }
}

/// `needle` occurs in `hay` at position `i`, ignoring ASCII case in `hay`.
pub open spec fn matches_at(hay: Seq<char>, needle: Seq<char>, i: int) -> bool {
    &&& 0 <= i
    &&& i + needle.len() <= hay.len()
    &&& forall|j: int| 0 <= j < needle.len() ==> folds_to(#[trigger] hay[i + j], needle[j])
}

/// `needle` occurs somewhere in `hay`, ignoring ASCII case in `hay`.
pub open spec fn contains_folded(hay: Seq<char>, needle: Seq<char>) -> bool {
    exists|i: int| matches_at(hay, needle, i)
}

/// The known phrases of the tool's error output, in lower case, each with
/// the cause it points at. Earlier rows win.
pub open spec fn marker_table() -> Seq<(Seq<char>, Category)> {
    seq![
        ("ydotoold"@, Category::ServiceNotRunning),
        ("socket"@, Category::ServiceNotRunning),
        ("connection"@, Category::ServiceNotRunning),
        ("flatpak-spawn"@, Category::SandboxPermissionMissing),
        ("not found"@, Category::SandboxPermissionMissing),
    ]
}

/// The cause of the first row of `table` whose phrase occurs in `hay`.
pub open spec fn first_marker(hay: Seq<char>, table: Seq<(Seq<char>, Category)>) -> Option<
    Category,
>
    decreases table.len(),
{
    if table.len() == 0 {
        None
    } else if contains_folded(hay, table[0].0) {
        Some(table[0].1)
    } else {
        first_marker(hay, table.drop_first())
    }
}

/// The cause that the error output `stderr` points at.
pub open spec fn stderr_category(stderr: Seq<char>) -> Category {
    match first_marker(stderr, marker_table()) {
        Some(c) => c,
        None => Category::Unknown,
    }
}

/// What the operator is told to install, inside or outside a sandbox.
pub open spec fn install_guidance(isolated: bool) -> Seq<char> {
    if isolated {
        HOST_INSTALL_GUIDANCE@
    } else {
        NATIVE_INSTALL_GUIDANCE@
    }
}

/// The message for error output `stderr` that points at `c`.
pub open spec fn stderr_message(c: Category, stderr: Seq<char>) -> Seq<char> {
    if c == Category::ServiceNotRunning {
        SERVICE_GUIDANCE@
    } else if c == Category::SandboxPermissionMissing {
        PERMISSION_GUIDANCE@
    } else {
        UNKNOWN_PREFIX@ + stderr
    }
}

/// The report owed for `outcome`.
pub open spec fn expected_report(outcome: DispatchOutcome, isolated: bool) -> Option<
    (Category, Seq<char>),
> {
    match outcome {
        DispatchOutcome::Success => None,
        DispatchOutcome::SpawnFailed(_) => Some(
            (Category::ToolNotInstalled, install_guidance(isolated)),
        ),
        DispatchOutcome::ExitedWithError(e) => Some(
            (stderr_category(e@), stderr_message(stderr_category(e@), e@)),
        ),
    }
}

/// Error output that mentions a connection points at the input daemon,
/// whatever else it says: it is never classified otherwise.
pub proof fn lemma_connection_means_service_down(outcome: DispatchOutcome, isolated: bool)
    requires
        outcome is ExitedWithError,
        contains_exactly(outcome->ExitedWithError_0@, "connection"@),
    ensures
        expected_report(outcome, isolated) matches Some((c, _)) && c
            == Category::ServiceNotRunning,
{
    let hay = outcome->ExitedWithError_0@;
    let needle = "connection"@;
    reveal_strlit("connection");
    let i = choose|i: int|
        0 <= i && i + needle.len() <= hay.len() && #[trigger] hay.subrange(i, i + needle.len())
            == needle;
    assert forall|j: int| 0 <= j < needle.len() implies folds_to(#[trigger] hay[i + j], needle[j]) by {
        assert(hay[i + j] == hay.subrange(i, i + needle.len())[j]);
    }
    assert(matches_at(hay, needle, i));
    let t = marker_table();
    assert(t.drop_first().drop_first()[0] == (needle, Category::ServiceNotRunning));
    assert(first_marker(hay, t.drop_first().drop_first()) == Some(Category::ServiceNotRunning));
    assert(first_marker(hay, t.drop_first()) == Some(Category::ServiceNotRunning));
    assert(first_marker(hay, t) == Some(Category::ServiceNotRunning));
}

/// When the tool cannot be started from inside a sandbox, the advice is to
/// install it on the host, which differs from the advice for a native run.
pub proof fn lemma_sandboxed_spawn_failure(outcome: DispatchOutcome)
    requires
        outcome is SpawnFailed,
    ensures
        expected_report(outcome, true) == Some((Category::ToolNotInstalled, HOST_INSTALL_GUIDANCE@)),
        HOST_INSTALL_GUIDANCE@ != NATIVE_INSTALL_GUIDANCE@,
{
    reveal_strlit(
        "make sure ydotool is installed on the HOST system, not in the sandbox; also check: flatpak override --user --talk-name=org.freedesktop.Flatpak me.amankhanna.opendeck",
    );
    reveal_strlit("make sure ydotool is installed: sudo apt install ydotool");
    assert(HOST_INSTALL_GUIDANCE@.len() != NATIVE_INSTALL_GUIDANCE@.len());
}

fn marker_rows() -> (r: Vec<(&'static str, Category)>)
    ensures
        r@.map_values(|row: (&'static str, Category)| (row.0@, row.1)) == marker_table(),
{
    let mut r: Vec<(&'static str, Category)> = Vec::new();
    r.push(("ydotoold", Category::ServiceNotRunning));
    r.push(("socket", Category::ServiceNotRunning));
    r.push(("connection", Category::ServiceNotRunning));
    r.push(("flatpak-spawn", Category::SandboxPermissionMissing));
    r.push(("not found", Category::SandboxPermissionMissing));
    assert(r@.map_values(|row: (&'static str, Category)| (row.0@, row.1)) =~= marker_table());
    r
}

/// The characters of `s`, one per element.
fn chars_of(s: &str) -> (r: Vec<char>)
    ensures
        r@ == s@,
{
    let n = s.unicode_len();
    let mut r: Vec<char> = Vec::new();
    for i in 0..n
        invariant
            n == s@.len(),
            r@ == s@.take(i as int),
    {
        r.push(s.get_char(i));
        assert(r@ =~= s@.take(i + 1));
    }
    assert(r@ =~= s@);
    r
}

fn folds_to_exec(c: char, m: char) -> (r: bool)
    ensures
        r == folds_to(c, m),
{
    if 'A' <= c && c <= 'Z' {
        (c as u32) + 32 == m as u32
    } else {
        c == m
    }
}

fn contains_folded_exec(hay: &Vec<char>, needle: &Vec<char>) -> (r: bool)
    ensures
        r == contains_folded(hay@, needle@),
{
    if needle.len() == 0 {
        assert(matches_at(hay@, needle@, 0));
        return true;
    }
    if needle.len() > hay.len() {
        return false;
    }
    let hay_len = hay.len();
    let last = hay_len - needle.len();
    let mut i: usize = 0;
    while i <= last
        invariant
            last + needle@.len() == hay@.len(),
            hay_len == hay@.len(),
            needle@.len() > 0,
            i <= last + 1,
            forall|k: int| 0 <= k < i ==> !matches_at(hay@, needle@, k),
        decreases last + 1 - i,
    {
        let mut j: usize = 0;
        let mut all = true;
        while j < needle.len() && all
            invariant
                i <= last,
                last + needle@.len() == hay@.len(),
                hay_len == hay@.len(),
                j <= needle@.len(),
                all ==> forall|jj: int| 0 <= jj < j ==> folds_to(hay@[i + jj], needle@[jj]),
                !all ==> !matches_at(hay@, needle@, i as int),
            decreases needle@.len() - j + (if all { 1int } else { 0int }),
        {
            if folds_to_exec(hay[i + j], needle[j]) {
                j = j + 1;
            } else {
                all = false;
                assert(!folds_to(hay@[i + j], needle@[j as int]));
            }
        }
        if all {
            assert(matches_at(hay@, needle@, i as int));
            return true;
        }
        i = i + 1;
    }
    assert forall|k: int| !matches_at(hay@, needle@, k) by {
        if matches_at(hay@, needle@, k) {
            assert(k <= last);
        }
    }
    false
}

/// The cause that the error output `stderr` points at: the first row of the
/// phrase table whose phrase occurs in it, in any ASCII case, else `Unknown`.
pub fn classify_stderr(stderr: &str) -> (r: Category)
    ensures
        r == stderr_category(stderr@),
{
    let hay = chars_of(stderr);
    let rows = marker_rows();
    let ghost table = marker_table();
    let mut i: usize = 0;
    assert(table.subrange(0, table.len() as int) =~= table);
    while i < rows.len()
        invariant
            hay@ == stderr@,
            rows@.map_values(|row: (&'static str, Category)| (row.0@, row.1)) == table,
            table == marker_table(),
            i <= rows@.len(),
            first_marker(stderr@, table) == first_marker(stderr@, table.subrange(i as int, table.len() as int)),
        decreases rows@.len() - i,
    {
        let row = rows[i];
        let needle = chars_of(row.0);
        assert(table[i as int] == (row.0@, row.1));
        let ghost sub = table.subrange(i as int, table.len() as int);
        assert(sub.drop_first() =~= table.subrange(i + 1, table.len() as int));
        if contains_folded_exec(&hay, &needle) {
            return row.1;
        }
        i = i + 1;
    }
    assert(table.subrange(i as int, table.len() as int) =~= Seq::<(Seq<char>, Category)>::empty());
    Category::Unknown
}

/// The advice for `outcome`: nothing after success; after a start-up
/// failure, where to install the tool (on the host when sandboxed); after an
/// error exit, what the error output points at, or the output itself.
pub fn classify(outcome: &DispatchOutcome, state: EnvironmentState) -> (r:
    Option<DiagnosticReport>)
    ensures
        report_view(r) == expected_report(*outcome, state.isolated),
{
    match outcome {
        DispatchOutcome::Success => None,
        DispatchOutcome::SpawnFailed(_) => {
            let message = if state.isolated {
                String::from_str(HOST_INSTALL_GUIDANCE)
            } else {
                String::from_str(NATIVE_INSTALL_GUIDANCE)
            };
            Some(DiagnosticReport { category: Category::ToolNotInstalled, message })
        },
        DispatchOutcome::ExitedWithError(stderr) => {
            let category = classify_stderr(stderr.as_str());
            let message = match category {
                Category::ServiceNotRunning => String::from_str(SERVICE_GUIDANCE),
                Category::SandboxPermissionMissing => String::from_str(PERMISSION_GUIDANCE),
                _ => String::from_str(UNKNOWN_PREFIX).concat(stderr.as_str()),
            };
            Some(DiagnosticReport { category, message })
        },
    }
}

} // verus!
