//! What one key press does: pick the text, type it on the host, and judge
//! the result.
use vstd::prelude::*;
use vstd::string::*;
use crate::diagnosis::{
    classify, expected_report, report_view, DiagnosticReport, DispatchOutcome,
};
use crate::environment::EnvironmentState;
use crate::invocation::{host_arguments, host_program, typing_arguments, Invocation};

verus! {

/// Typed when the button has no text configured.
pub const FALLBACK_TEXT: &'static str = "Hello World";

/// The per-button configuration.
pub struct TypeTextSettings {
    /// The text to type; empty when none was configured.
    pub text: String,
}

/// The text that a press types for configured text `configured`.
pub open spec fn text_to_type(configured: Seq<char>) -> Seq<char> {
    if configured.len() == 0 {
        FALLBACK_TEXT@
    } else {
        configured
    }
}

impl TypeTextSettings {
    /// The text to type: the configured one, or the fallback when empty.
    /// It is never empty.
    pub fn text_to_type(&self) -> (r: String)
        ensures
            r@ == text_to_type(self.text@),
            r@.len() > 0,
    {
        proof {
            reveal_strlit("Hello World");
        }
        if self.text.as_str().is_empty() {
            String::from_str(FALLBACK_TEXT)
        } else {
            self.text.clone()
        }
    }
}

/// The result of one press.
pub struct TypeTextOutcome {
    /// The tool typed the text.
    pub success: bool,
    /// Advice for the log when it did not.
    pub report: Option<DiagnosticReport>,
}

impl TypeTextOutcome {
    /// The button should flash its alert indicator.
    pub fn needs_alert(&self) -> (r: bool)
        ensures
            r == !self.success,
    {
        !self.success
    }
}

/// The invocation that a press with configured text `configured` runs.
pub open spec fn press_invocation(inv: Invocation, isolated: bool, configured: Seq<char>) -> bool {
    &&& inv.program@ == host_program(isolated)
    &&& inv.argv() == host_arguments(isolated, typing_arguments(text_to_type(configured)))
}

/// How a press with outcome `o` of its dispatch is judged.
pub open spec fn press_result(r: TypeTextOutcome, o: DispatchOutcome, isolated: bool) -> bool {
    &&& r.success == (o is Success)
    &&& report_view(r.report) == expected_report(o, isolated)
}

/// Handles presses of the typing button.
pub struct EchoMacroHandler {
    /// Sampled once at start-up and shared by every press.
    pub state: EnvironmentState,
}

impl EchoMacroHandler {
    pub fn new(state: EnvironmentState) -> (r: EchoMacroHandler)
        ensures
            r.state == state,
    {
        EchoMacroHandler { state }
    }

    /// Types the configured text, or the fallback, through the host tool.
    /// `dispatch` runs an invocation once and reports how it ended; it is
    /// called exactly once, with the invocation for this environment. The
    /// result is a success exactly when the dispatch succeeded, and carries
    /// the advice for that outcome.
    pub fn type_text<F>(&self, settings: &TypeTextSettings, dispatch: F) -> (r: TypeTextOutcome) where
        F: Fn(&Invocation) -> DispatchOutcome,

        requires
            forall|inv: &Invocation| #[trigger] dispatch.requires((inv,)),
        ensures
            exists|inv: Invocation, o: DispatchOutcome|
                {
                    &&& press_invocation(inv, self.state.isolated, settings.text@)
                    &&& #[trigger] dispatch.ensures((&inv,), o)
                    &&& press_result(r, o, self.state.isolated)
                },
    {
        let text = settings.text_to_type();
        let invocation = Invocation::build(self.state, text.as_str());
        let outcome = dispatch(&invocation);
        let success = match outcome {
            DispatchOutcome::Success => true,
            _ => false,
        };
        let report = classify(&outcome, self.state);
        let r = TypeTextOutcome { success, report };
        assert(press_invocation(invocation, self.state.isolated, settings.text@));
        assert(press_result(r, outcome, self.state.isolated));
        r
    }
}

} // verus!
