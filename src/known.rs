//! What a validation may read, and what it answers.
//!
//! Every rule is a function of the operation under validation and of the
//! history it refers to. The history is handed in as a [`Known`] value: the
//! records and chain segments fetched so far. A rule that needs something not
//! in it answers with the [`ValidationError`] that names what to fetch, so the
//! caller can fetch it and validate again.
use vstd::prelude::*;
use crate::action::Action;
use crate::entries::{spec_kind_of, EntryKind, EntryValue};
use crate::hash::{ActionHash, AgentPubKey, AnyLinkableHash, LinkableKind};

verus! {

/// A verdict on an operation.
#[derive(Clone, Debug)]
pub enum ValidateCallbackResult {
    Valid,
    /// Rejected, with a reason for people to read.
    Invalid(String),
}

/// No verdict could be reached from what is known.
#[derive(Clone, Copy, Debug, PartialEq, Eq)]
pub enum ValidationError {
    /// The chain of `agent` from `chain_top` back to genesis is not at hand;
    /// `claim` is the kind of claim to read from its cached entries.
    ChainUnavailable { agent: AgentPubKey, chain_top: ActionHash, claim: EntryKind },
    /// The record at `hash` is not at hand: only its action where `kind` is
    /// `None`, else its entry read as `kind`.
    RecordUnavailable { hash: ActionHash, kind: Option<EntryKind> },
    /// The action `hash` created a claim whose entry cannot be read as one.
    MalformedClaim { hash: ActionHash },
}

/// The result of a validation rule.
pub type Outcome = Result<ValidateCallbackResult, ValidationError>;

/// What an outcome says, without the reason of a rejection: `Ok(true)` for
/// valid, `Ok(false)` for invalid.
pub open spec fn judge(r: Outcome) -> Result<bool, ValidationError> {
    match r {
        Ok(ValidateCallbackResult::Valid) => Ok(true),
        Ok(ValidateCallbackResult::Invalid(_)) => Ok(false),
        Err(e) => Err(e),
    }
}

/// `a`, and where `a` holds, `b`: the first rejection or failure decides.
pub open spec fn followed_by(a: Result<bool, ValidationError>, b: Result<bool, ValidationError>) -> Result<
    bool,
    ValidationError,
> {
    match a {
        Ok(true) => b,
        _ => a,
    }
}

/// An outcome as a mathematical value: a verdict with the reason of a
/// rejection, or the failure to reach one.
pub enum Verdict {
    Valid,
    Invalid(Seq<char>),
}

/// What the outcome `r` says, the reason of a rejection included.
pub open spec fn verdict_of(r: Outcome) -> Result<Verdict, ValidationError> {
    match r {
        Ok(ValidateCallbackResult::Valid) => Ok(Verdict::Valid),
        Ok(ValidateCallbackResult::Invalid(s)) => Ok(Verdict::Invalid(s@)),
        Err(e) => Err(e),
    }
}

/// A rejection for `reason`.
pub open spec fn reject(reason: Seq<char>) -> Result<Verdict, ValidationError> {
    Ok(Verdict::Invalid(reason))
}

/// Acceptance.
pub open spec fn accept() -> Result<Verdict, ValidationError> {
    Ok(Verdict::Valid)
}

/// The verdict of a check that came out `ok`, rejecting with `reason`.
pub open spec fn gate(ok: Result<bool, ValidationError>, reason: Seq<char>) -> Result<Verdict, ValidationError> {
    match ok {
        Err(e) => Err(e),
        Ok(true) => Ok(Verdict::Valid),
        Ok(false) => Ok(Verdict::Invalid(reason)),
    }
}

/// `a`, and where `a` accepts, `b`: the first rejection or failure decides
/// and is handed on unchanged.
pub open spec fn and_also(a: Result<Verdict, ValidationError>, b: Result<Verdict, ValidationError>) -> Result<
    Verdict,
    ValidationError,
> {
    match a {
        Ok(Verdict::Valid) => b,
        _ => a,
    }
}

/// A fetched record. `kind` is the entry type it was asked for (`None`: only
/// its action), `entry` the entry read as that type, where that succeeded.
#[derive(Clone, Debug)]
pub struct KnownRecord {
    pub action: Action,
    pub kind: Option<EntryKind>,
    pub entry: Option<EntryValue>,
}

/// One action of a walked chain, with its cached entry read as a claim
/// where that succeeded.
#[derive(Clone, Debug)]
pub struct ChainItem {
    pub action: Action,
    pub entry: Option<EntryValue>,
}

/// The chain of `agent` from `chain_top` back to genesis, newest first.
#[derive(Clone, Debug)]
pub struct KnownChain {
    pub agent: AgentPubKey,
    pub chain_top: ActionHash,
    pub claim: EntryKind,
    pub items: Vec<ChainItem>,
}

/// Everything fetched so far for one validation.
#[derive(Clone, Debug)]
pub struct Known {
    pub records: Vec<KnownRecord>,
    pub chains: Vec<KnownChain>,
}

pub open spec fn record_matches(r: KnownRecord, h: ActionHash, kind: Option<EntryKind>) -> bool {
    r.action.hash == h && (kind is None || r.kind == kind)
}

/// The first fetched record at `h` that was read as `kind`.
pub open spec fn first_record(s: Seq<KnownRecord>, h: ActionHash, kind: Option<EntryKind>) -> Option<
    KnownRecord,
>
    decreases s.len(),
{
    if s.len() == 0 {
        None
    } else if record_matches(s[0], h, kind) {
        Some(s[0])
    } else {
        first_record(s.drop_first(), h, kind)
    }
}

pub open spec fn chain_matches(c: KnownChain, agent: AgentPubKey, top: ActionHash, claim: EntryKind) -> bool {
    c.agent == agent && c.chain_top == top && c.claim == claim
}

/// The first fetched chain of `agent` from `top`, read for claims of `claim`.
pub open spec fn first_chain(s: Seq<KnownChain>, agent: AgentPubKey, top: ActionHash, claim: EntryKind) -> Option<
    KnownChain,
>
    decreases s.len(),
{
    if s.len() == 0 {
        None
    } else if chain_matches(s[0], agent, top, claim) {
        Some(s[0])
    } else {
        first_chain(s.drop_first(), agent, top, claim)
    }
}

/// The action of the record at `h`: `None` while it is not at hand.
pub open spec fn spec_action_at(k: Known, h: ActionHash) -> Option<Action> {
    match first_record(k.records@, h, None) {
        Some(r) => Some(r.action),
        None => None,
    }
}

/// Reading the record at `h` as an entry of `kind`: unavailable while it is
/// not at hand, `Some(None)` where it holds no entry of that kind.
pub open spec fn spec_entry_at(k: Known, h: ActionHash, kind: EntryKind) -> Option<Option<EntryValue>> {
    match first_record(k.records@, h, Some(kind)) {
        None => None,
        Some(r) => Some(
            match r.entry {
                Some(v) => if spec_kind_of(v) == kind {
                    Some(v)
                } else {
                    None
                },
                None => None,
            },
        ),
    }
}

/// Whether `h` refers to an entry of `kind`: `Ok(true)` if it does,
/// `Ok(false)` if the record holds none, an error while it is not at hand.
pub open spec fn spec_refers_to(k: Known, h: ActionHash, kind: EntryKind) -> Result<bool, ValidationError> {
    match spec_entry_at(k, h, kind) {
        None => Err(ValidationError::RecordUnavailable { hash: h, kind: Some(kind) }),
        Some(None) => Ok(false),
        Some(Some(_)) => Ok(true),
    }
}

/// Whether the linkable address `a` is an action whose record holds an
/// entry of `kind`.
pub open spec fn spec_links_to(k: Known, a: AnyLinkableHash, kind: EntryKind) -> Result<bool, ValidationError> {
    if a.kind == LinkableKind::Action {
        spec_refers_to(k, a.hash, kind)
    } else {
        Ok(false)
    }
}

proof fn lemma_first_record_step(s: Seq<KnownRecord>, i: int, h: ActionHash, kind: Option<EntryKind>)
    requires
        0 <= i < s.len(),
    ensures
        first_record(s.subrange(i, s.len() as int), h, kind) == (if record_matches(s[i], h, kind) {
            Some(s[i])
        } else {
            first_record(s.subrange(i + 1, s.len() as int), h, kind)
        }),
{
    assert(s.subrange(i, s.len() as int).drop_first() =~= s.subrange(i + 1, s.len() as int));
}

proof fn lemma_first_chain_step(s: Seq<KnownChain>, i: int, agent: AgentPubKey, top: ActionHash, claim: EntryKind)
    requires
        0 <= i < s.len(),
    ensures
        first_chain(s.subrange(i, s.len() as int), agent, top, claim) == (if chain_matches(s[i], agent, top, claim) {
            Some(s[i])
        } else {
            first_chain(s.subrange(i + 1, s.len() as int), agent, top, claim)
        }),
{
    assert(s.subrange(i, s.len() as int).drop_first() =~= s.subrange(i + 1, s.len() as int));
}

impl Known {
    /// Position of the first fetched record at `h` read as `kind`.
    pub fn find_record(&self, h: &ActionHash, kind: Option<EntryKind>) -> (r: Option<usize>)
        ensures
            match r {
                Some(i) => i < self.records@.len() && first_record(self.records@, *h, kind) == Some(
                    self.records@[i as int],
                ),
                None => first_record(self.records@, *h, kind) is None,
            },
    {
        let mut i: usize = 0;
        assert(self.records@.subrange(0, self.records@.len() as int) =~= self.records@);
        while i < self.records.len()
            invariant
                i <= self.records@.len(),
                first_record(self.records@, *h, kind) == first_record(
                    self.records@.subrange(i as int, self.records@.len() as int),
                    *h,
                    kind,
                ),
            decreases self.records@.len() - i,
        {
            proof {
                lemma_first_record_step(self.records@, i as int, *h, kind);
            }
            let rec = &self.records[i];
            let kind_ok = match kind {
                None => true,
                Some(k) => match rec.kind {
                    Some(rk) => rk == k,
                    None => false,
                },
            };
            if rec.action.hash == *h && kind_ok {
                return Some(i);
            }
            i = i + 1;
        }
        proof {
            assert(self.records@.subrange(i as int, self.records@.len() as int).len() == 0);
        }
        None
    }

    /// Position of the first fetched chain of `agent` from `top`, read for
    /// claims of `claim`.
    pub fn find_chain(&self, agent: &AgentPubKey, top: &ActionHash, claim: EntryKind) -> (r: Option<usize>)
        ensures
            match r {
                Some(i) => i < self.chains@.len() && first_chain(self.chains@, *agent, *top, claim) == Some(
                    self.chains@[i as int],
                ),
                None => first_chain(self.chains@, *agent, *top, claim) is None,
            },
    {
        let mut i: usize = 0;
        assert(self.chains@.subrange(0, self.chains@.len() as int) =~= self.chains@);
        while i < self.chains.len()
            invariant
                i <= self.chains@.len(),
                first_chain(self.chains@, *agent, *top, claim) == first_chain(
                    self.chains@.subrange(i as int, self.chains@.len() as int),
                    *agent,
                    *top,
                    claim,
                ),
            decreases self.chains@.len() - i,
        {
            proof {
                lemma_first_chain_step(self.chains@, i as int, *agent, *top, claim);
            }
            let c = &self.chains[i];
            if c.agent == *agent && c.chain_top == *top && c.claim == claim {
                return Some(i);
            }
            i = i + 1;
        }
        proof {
            assert(self.chains@.subrange(i as int, self.chains@.len() as int).len() == 0);
        }
        None
    }

    /// The action of the record at `h`.
    pub fn action_at(&self, h: &ActionHash) -> (r: Result<Action, ValidationError>)
        ensures
            match spec_action_at(*self, *h) {
                Some(a) => r == Ok::<Action, ValidationError>(a),
                None => r == Err::<Action, ValidationError>(
                    ValidationError::RecordUnavailable { hash: *h, kind: None },
                ),
            },
    {
        match self.find_record(h, None) {
            Some(i) => Ok(self.records[i].action),
            None => Err(ValidationError::RecordUnavailable { hash: *h, kind: None }),
        }
    }

    /// The record at `h` read as an entry of `kind`, where it holds one.
    pub fn entry_at<'a>(&'a self, h: &ActionHash, kind: EntryKind) -> (r: Result<Option<&'a EntryValue>, ValidationError>)
        ensures
            match spec_entry_at(*self, *h, kind) {
                Some(Some(e)) => r matches Ok(Some(v)) && *v == e,
                Some(None) => r matches Ok(None),
                None => r == Err::<Option<&EntryValue>, ValidationError>(
                    ValidationError::RecordUnavailable { hash: *h, kind: Some(kind) },
                ),
            },
    {
        match self.find_record(h, Some(kind)) {
            Some(i) => {
                match &self.records[i].entry {
                    Some(v) => {
                        if v.kind() == kind {
                            Ok(Some(v))
                        } else {
                            Ok(None)
                        }
                    },
                    None => Ok(None),
                }
            },
            None => Err(ValidationError::RecordUnavailable { hash: *h, kind: Some(kind) }),
        }
    }

    /// Whether `h` refers to an entry of `kind`.
    pub fn refers_to(&self, h: &ActionHash, kind: EntryKind) -> (r: Result<bool, ValidationError>)
        ensures
            r == spec_refers_to(*self, *h, kind),
    {
        match self.find_record(h, Some(kind)) {
            Some(i) => {
                match &self.records[i].entry {
                    Some(v) => Ok(v.kind() == kind),
                    None => Ok(false),
                }
            },
            None => Err(ValidationError::RecordUnavailable { hash: *h, kind: Some(kind) }),
        }
    }
}

/// A rejection for `reason`.
pub fn invalid(reason: &str) -> (r: Outcome)
    ensures
        verdict_of(r) == reject(reason@),
        judge(r) == Ok::<bool, ValidationError>(false),
{
    Ok(ValidateCallbackResult::Invalid(reason.to_owned()))
}

/// The outcome that `ok` stands for, rejecting with `reason`.
pub fn verdict(ok: Result<bool, ValidationError>, reason: &str) -> (r: Outcome)
    ensures
        verdict_of(r) == gate(ok, reason@),
        judge(r) == ok,
{
    match ok {
        Err(e) => Err(e),
        Ok(true) => Ok(ValidateCallbackResult::Valid),
        Ok(false) => invalid(reason),
    }
}

/// Whether the linkable address `a` is an action whose record holds an
/// entry of `kind`.
pub fn links_to(k: &Known, a: &AnyLinkableHash, kind: EntryKind) -> (r: Result<bool, ValidationError>)
    ensures
        r == spec_links_to(*k, *a, kind),
{
    match a.into_action_hash() {
        Some(h) => k.refers_to(&h, kind),
        None => Ok(false),
    }
}

/// What the outcome `r` says, without the reason of a rejection.
pub fn judged(r: Outcome) -> (b: Result<bool, ValidationError>)
    ensures
        b == judge(r),
{
    match r {
        Ok(ValidateCallbackResult::Valid) => Ok(true),
        Ok(ValidateCallbackResult::Invalid(_)) => Ok(false),
        Err(e) => Err(e),
    }
}

} // verus!
