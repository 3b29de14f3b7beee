use voice_transcribe::paste::{plan_paste, PastePlan};

#[test]
fn paste_plan_follows_auto_paste_and_mode() {
    assert_eq!(plan_paste(false, "terminal", true), PastePlan::ClipboardOnly);
    assert_eq!(plan_paste(true, "terminal", true), PastePlan::SendKeys { terminal_first: true });
    assert_eq!(plan_paste(true, "terminal", false), PastePlan::SendKeys { terminal_first: false });
    assert_eq!(plan_paste(true, "standard", true), PastePlan::SendKeys { terminal_first: false });
    assert_eq!(plan_paste(true, "auto", true), PastePlan::SendKeys { terminal_first: false });
}
