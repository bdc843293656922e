use vstd::prelude::*;

verus! {

/// The deposit escrowed by every request, in protocol units.
pub const FIXED_DEPOSIT: u64 = 3_000_000;

/// Three days in seconds: the protocol's spam cool-down and expiry window.
pub const THREE_DAYS: i64 = 3 * 24 * 60 * 60;

/// Protocol constants, passed as explicit configuration so that deployments
/// and tests choose the deposit and the windows deliberately.
#[derive(Clone, Copy)]
pub struct ProtocolConfig {
    /// Units escrowed by every request.
    pub deposit: u64,
    /// Seconds after flagging before a spam resolution may release funds.
    pub spam_cooldown: i64,
    /// Seconds after creation before an unanswered request may be reclaimed.
    pub expiry_window: i64,
    /// The program id under which all addresses are derived.
    pub program_id: [u8; 32],
}

impl ProtocolConfig {
    /// A sane configuration: a positive deposit and non-negative windows.
    pub open spec fn wf(self) -> bool {
        self.deposit > 0 && self.spam_cooldown >= 0 && self.expiry_window >= 0
    }

    /// The protocol-level constants: 3,000,000 units and three-day windows.
    pub fn standard(program_id: [u8; 32]) -> (r: ProtocolConfig)
        ensures
            r.wf(),
            r.deposit == FIXED_DEPOSIT,
            r.spam_cooldown == THREE_DAYS,
            r.expiry_window == THREE_DAYS,
            r.program_id == program_id,
    {
        ProtocolConfig {
            deposit: FIXED_DEPOSIT,
            spam_cooldown: THREE_DAYS,
            expiry_window: THREE_DAYS,
            program_id,
        }
    }
}

} // verus!
