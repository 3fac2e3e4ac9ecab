//! Calls to the platform's management interface: what they cost and how
//! their failures are told apart.

use vstd::prelude::*;
use vstd::string::StringExecFns;
use crate::principal::Principal;

verus! {

/// Stands for the code image that a new miner is installed with.
#[derive(Debug, Clone)]
pub struct MinerWasm;

/// Why the platform rejected a call.
#[derive(Clone, Copy, Debug, PartialEq, Eq, Structural)]
pub enum RejectionCode {
    NoError,
    SysFatal,
    SysTransient,
    DestinationInvalid,
    CanisterReject,
    CanisterError,
    Unknown,
}

/// Why a call to the management interface failed.
#[derive(Debug, Clone, PartialEq, Eq)]
pub enum Reason {
    /// The caller cannot pay for the call.
    OutOfCycles,
    /// The callee failed.
    CanisterError(String),
    /// The callee refused.
    Rejected(String),
    /// The platform failed for now.
    TransientInternalError(String),
    /// The platform failed.
    InternalError(String),
}

/// A failed call: the method and the reason.
#[derive(Debug, Clone, PartialEq, Eq)]
pub struct CallError {
    pub method: String,
    pub reason: Reason,
}

/// A reason as a mathematical value.
pub enum ReasonView {
    OutOfCycles,
    CanisterError(Seq<char>),
    Rejected(Seq<char>),
    TransientInternalError(Seq<char>),
    InternalError(Seq<char>),
}

impl View for Reason {
    type V = ReasonView;

    open spec fn view(&self) -> ReasonView {
        match *self {
            Reason::OutOfCycles => ReasonView::OutOfCycles,
            Reason::CanisterError(m) => ReasonView::CanisterError(m@),
            Reason::Rejected(m) => ReasonView::Rejected(m@),
            Reason::TransientInternalError(m) => ReasonView::TransientInternalError(m@),
            Reason::InternalError(m) => ReasonView::InternalError(m@),
        }
    }
}

impl RejectionCode {
    /// The name of the code.
    pub open spec fn name_spec(self) -> Seq<char> {
        match self {
            RejectionCode::NoError => "NoError"@,
            RejectionCode::SysFatal => "SysFatal"@,
            RejectionCode::SysTransient => "SysTransient"@,
            RejectionCode::DestinationInvalid => "DestinationInvalid"@,
            RejectionCode::CanisterReject => "CanisterReject"@,
            RejectionCode::CanisterError => "CanisterError"@,
            RejectionCode::Unknown => "Unknown"@,
        }
    }

    /// The name of the code.
    pub fn name(&self) -> (r: &'static str)
        ensures
            r@ == self.name_spec(),
    {
        match self {
            RejectionCode::NoError => "NoError",
            RejectionCode::SysFatal => "SysFatal",
            RejectionCode::SysTransient => "SysTransient",
            RejectionCode::DestinationInvalid => "DestinationInvalid",
            RejectionCode::CanisterReject => "CanisterReject",
            RejectionCode::CanisterError => "CanisterError",
            RejectionCode::Unknown => "Unknown",
        }
    }

    /// The code that the platform numbers `code`.
    pub fn from_number(code: i32) -> (r: RejectionCode)
        ensures
            r == match code {
                0 => RejectionCode::NoError,
                1 => RejectionCode::SysFatal,
                2 => RejectionCode::SysTransient,
                3 => RejectionCode::DestinationInvalid,
                4 => RejectionCode::CanisterReject,
                5 => RejectionCode::CanisterError,
                _ => RejectionCode::Unknown,
            },
    {
        if code == 0 {
            RejectionCode::NoError
        } else if code == 1 {
            RejectionCode::SysFatal
        } else if code == 2 {
            RejectionCode::SysTransient
        } else if code == 3 {
            RejectionCode::DestinationInvalid
        } else if code == 4 {
            RejectionCode::CanisterReject
        } else if code == 5 {
            RejectionCode::CanisterError
        } else {
            RejectionCode::Unknown
        }
    }
}

/// What is said of a rejection that is none of the three told apart.
pub open spec fn internal_text(code: RejectionCode, message: Seq<char>) -> Seq<char> {
    "rejection code: "@ + code.name_spec() + ", rejection message: "@ + message
}

/// The reason that a rejection stands for.
pub open spec fn reason_of(code: RejectionCode, message: Seq<char>) -> ReasonView {
    match code {
        RejectionCode::SysTransient => ReasonView::TransientInternalError(message),
        RejectionCode::CanisterError => ReasonView::CanisterError(message),
        RejectionCode::CanisterReject => ReasonView::Rejected(message),
        _ => ReasonView::InternalError(internal_text(code, message)),
    }
}

/// Joins the fixed words, the code's name and the message.
fn internal_message(name: &str, message: &str) -> (r: String)
    ensures
        r@ == "rejection code: "@ + name@ + ", rejection message: "@ + message@,
{
    let mut text = "rejection code: ".to_owned();
    text.append(name);
    text.append(", rejection message: ");
    text.append(message);
    text
}

impl Reason {
    /// Tells the reasons for a rejection apart by its code.
    pub fn from_reject(reject_code: RejectionCode, reject_message: String) -> (r: Reason)
        ensures
            r@ == reason_of(reject_code, reject_message@),
    {
        match reject_code {
            RejectionCode::SysTransient => Reason::TransientInternalError(reject_message),
            RejectionCode::CanisterError => Reason::CanisterError(reject_message),
            RejectionCode::CanisterReject => Reason::Rejected(reject_message),
            _ => Reason::InternalError(
                internal_message(reject_code.name(), reject_message.as_str()),
            ),
        }
    }
}

/// Checks that the caller can pay for a call: its balance must cover the
/// payment.
pub fn check_payment(method: &str, balance: u128, payment: u64) -> (r: Result<(), CallError>)
    ensures
        r is Err <==> balance < payment,
        r is Err ==> r->Err_0.method@ == method@ && r->Err_0.reason@ == ReasonView::OutOfCycles,
{
    if balance < payment as u128 {
        Err(CallError { method: method.to_owned(), reason: Reason::OutOfCycles })
    } else {
        Ok(())
    }
}

/// The error for a call that the platform rejected.
pub fn rejected(method: &str, code: RejectionCode, message: String) -> (r: CallError)
    ensures
        r.method@ == method@,
        r.reason@ == reason_of(code, message@),
{
    CallError { method: method.to_owned(), reason: Reason::from_reject(code, message) }
}

/// Whether `caller` may ask the spawner for a miner: only the ledger may.
pub fn may_spawn(caller: Principal) -> (r: bool)
    ensures
        r == (caller@ == crate::miner::ledger_bytes()),
{
    let ledger = crate::miner::ledger_id();
    proof {
        if caller@ == ledger@ {
            use_type_invariant(&caller);
            caller.lemma_view_injective(ledger);
        }
    }
    caller == ledger
}

} // verus!
