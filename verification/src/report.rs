//! What is reported to the user when failover needs their help.
use vstd::prelude::*;

verus! {

/// A report, by its stable code.
#[derive(Debug, Clone, Copy, PartialEq, Eq, Structural)]
pub enum ReportCode {
    /// Failover was triggered and came to nothing, and some candidate was out of reach only because
    /// the core would have to restart for it.
    AutoSwitchNeedsRestart,
    /// The running exit may not be the chosen one.
    ExitMismatch,
}

/// Diagnostic text of [`ReportCode::AutoSwitchNeedsRestart`].
pub const RESTART_BLOCKED_MESSAGE: &'static str =
    "自动切换已触发，但本轮未能换成节点：有候选节点需要重启内核才能切换过去";

/// Diagnostic text of [`ReportCode::ExitMismatch`].
pub const EXIT_MISMATCH_MESSAGE: &'static str =
    "自动故障切换未能确认目标出口，恢复原出口也失败；正在后台对账运行出口";

/// The diagnostic text of a report. What the user reads is chosen by the code.
pub fn report_message(code: ReportCode) -> (r: &'static str)
    ensures
        r == match code {
            ReportCode::AutoSwitchNeedsRestart => RESTART_BLOCKED_MESSAGE,
            ReportCode::ExitMismatch => EXIT_MISMATCH_MESSAGE,
        },
{
    match code {
        ReportCode::AutoSwitchNeedsRestart => RESTART_BLOCKED_MESSAGE,
        ReportCode::ExitMismatch => EXIT_MISMATCH_MESSAGE,
    }
}

} // verus!
