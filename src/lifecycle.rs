//! The lifecycle of one opened device: which interfaces are claimed, and
//! whether the device is still usable after a reset or a forget.
//!
//! A claimed interface is named by an [`InterfaceClaim`]; a claim that was
//! released, or that belongs to a device that was reset or forgotten, is
//! stale and is refused rather than handed to the transport.
use crate::usb::Error;
use vstd::prelude::*;

verus! {

/// The state of an opened device.
#[derive(Clone, Copy, Debug, PartialEq, Eq, Structural)]
pub enum DeviceState {
    /// Opened and usable.
    Opened,
    /// Reset: the handle is no longer usable; a fresh discovery is needed.
    Reset,
    /// Removed from the authorized set: a new discovery and authorization
    /// are needed.
    Forgotten,
}

/// A handle on one claimed interface of a device.
#[derive(Clone, Copy, Debug, PartialEq, Eq, Structural)]
pub struct InterfaceClaim {
    number: u8,
    id: u64,
}

impl InterfaceClaim {
    pub closed spec fn number_spec(self) -> u8 {
        self.number
    }

    /// The interface number that was claimed.
    pub fn number(&self) -> (r: u8)
        ensures
            r == self.number_spec(),
    {
        self.number
    }
}

/// The error that a device in `state` gives to any use of its handles:
/// none while it is opened.
pub open spec fn stale_error(state: DeviceState) -> Error {
    match state {
        DeviceState::Forgotten => Error::Disconnected,
        _ => Error::Invalid,
    }
}

/// What a reset, or a forget, of a device in `state` may do: go ahead only
/// while it is opened.
pub open spec fn state_status(state: DeviceState) -> Result<(), Error> {
    match state {
        DeviceState::Opened => Ok(()),
        _ => Err(stale_error(state)),
    }
}

/// The lifecycle of one opened device.
#[derive(Debug)]
pub struct Lifecycle {
    state: DeviceState,
    claims: Vec<InterfaceClaim>,
    next_id: u64,
}

impl Lifecycle {
    /// The current state.
    pub closed spec fn phase(&self) -> DeviceState {
        self.state
    }

    /// The claims that are live, oldest first.
    pub closed spec fn live_claims(&self) -> Seq<InterfaceClaim> {
        self.claims@
    }

    /// No more claims can be issued.
    pub closed spec fn exhausted(&self) -> bool {
        self.next_id == u64::MAX
    }

    /// The claims are distinct in identifier and in interface number, and
    /// every identifier is below the next one to issue.
    pub closed spec fn wf(&self) -> bool {
        &&& forall|k: int| 0 <= k < self.claims@.len() ==> (#[trigger] self.claims@[k]).id < self.next_id
        &&& forall|a: int, b: int|
            0 <= a < self.claims@.len() && 0 <= b < self.claims@.len() && a != b ==> {
                &&& (#[trigger] self.claims@[a]).id != (#[trigger] self.claims@[b]).id
                &&& self.claims@[a].number != self.claims@[b].number
            }
        &&& self.state != DeviceState::Opened ==> self.claims@.len() == 0
    }

    /// Some live claim holds interface `number`.
    pub open spec fn holds_number(&self, number: u8) -> bool {
        exists|k: int| 0 <= k < self.live_claims().len() && (#[trigger] self.live_claims()[k]).number_spec() == number
    }

    /// Interface `number` can be claimed now.
    pub open spec fn can_claim(&self, number: u8) -> bool {
        &&& self.phase() == DeviceState::Opened
        &&& !self.holds_number(number)
        &&& !self.exhausted()
    }

    /// What a use of `claim` gives: nothing while it is live, else the
    /// error that says why it is stale.
    pub open spec fn claim_status(&self, claim: InterfaceClaim) -> Result<(), Error> {
        if self.phase() != DeviceState::Opened {
            Err(stale_error(self.phase()))
        } else if self.live_claims().contains(claim) {
            Ok(())
        } else {
            Err(Error::Invalid)
        }
    }

    /// A freshly opened device, with no interface claimed.
    pub fn new() -> (r: Lifecycle)
        ensures
            r.wf(),
            r.phase() == DeviceState::Opened,
            r.live_claims() == Seq::<InterfaceClaim>::empty(),
            !r.exhausted(),
    {
        Lifecycle { state: DeviceState::Opened, claims: Vec::new(), next_id: 0 }
    }

    /// The current state.
    pub fn state(&self) -> (r: DeviceState)
        ensures
            r == self.phase(),
        opens_invariants none
        no_unwind
    {
        self.state
    }

    /// Whether a reset or a forget may go ahead.
    pub fn check_release_all(&self) -> (r: Result<(), Error>)
        ensures
            r == state_status(self.phase()),
    {
        match self.state {
            DeviceState::Opened => Ok(()),
            DeviceState::Reset => Err(Error::Invalid),
            DeviceState::Forgotten => Err(Error::Disconnected),
        }
    }

    /// Whether interface `number` may be claimed: a device that is no longer
    /// opened refuses with its stale error; an interface already claimed
    /// through this device, or a device that can issue no more claims,
    /// refuses with a communication error.
    pub fn check_claim(&self, number: u8) -> (r: Result<(), Error>)
        requires
            self.wf(),
        ensures
            r is Ok <==> self.can_claim(number),
            self.phase() != DeviceState::Opened ==> r == Err::<(), Error>(stale_error(self.phase())),
            self.phase() == DeviceState::Opened && !self.can_claim(number) ==> (r matches Err(
                Error::CommunicationError(_),
            )),
    {
        match self.state {
            DeviceState::Opened => {},
            DeviceState::Reset => {
                return Err(Error::Invalid);
            },
            DeviceState::Forgotten => {
                return Err(Error::Disconnected);
            },
        }
        let mut i: usize = 0;
        while i < self.claims.len()
            invariant
                i <= self.claims@.len(),
                self.state == DeviceState::Opened,
                forall|k: int| 0 <= k < i ==> (#[trigger] self.claims@[k]).number != number,
            decreases self.claims@.len() - i,
        {
            if self.claims[i].number == number {
                assert(self.live_claims()[i as int].number_spec() == number);
                return Err(Error::CommunicationError("interface already claimed".to_owned()));
            }
            i = i + 1;
        }
        if self.next_id == u64::MAX {
            return Err(Error::CommunicationError("no interface claims left".to_owned()));
        }
        Ok(())
    }

    /// Records that the transport claimed interface `number`, and returns
    /// the new claim.
    pub fn record_claim(&mut self, number: u8) -> (r: InterfaceClaim)
        requires
            old(self).wf(),
            old(self).can_claim(number),
        ensures
            final(self).wf(),
            final(self).phase() == old(self).phase(),
            final(self).live_claims() == old(self).live_claims().push(r),
            r.number_spec() == number,
            !old(self).live_claims().contains(r),
    {
        let claim = InterfaceClaim { number, id: self.next_id };
        self.claims.push(claim);
        self.next_id = self.next_id + 1;
        assert forall|a: int, b: int|
            0 <= a < self.claims@.len() && 0 <= b < self.claims@.len() && a != b implies {
                &&& (#[trigger] self.claims@[a]).id != (#[trigger] self.claims@[b]).id
                &&& self.claims@[a].number != self.claims@[b].number
            } by {
            let n = self.claims@.len() - 1;
            if a == n {
                assert(!(self.claims@[b].number == number && b < n)) by {
                    if self.claims@[b].number == number {
                        assert(old(self).live_claims()[b].number_spec() == number);
                    }
                }
            }
            if b == n {
                assert(!(self.claims@[a].number == number && a < n)) by {
                    if self.claims@[a].number == number {
                        assert(old(self).live_claims()[a].number_spec() == number);
                    }
                }
            }
        }
        assert(!old(self).live_claims().contains(claim)) by {
            if old(self).live_claims().contains(claim) {
                let k = choose|k: int| 0 <= k < old(self).claims@.len() && old(self).claims@[k] == claim;
                assert(old(self).claims@[k].id < old(self).next_id);
            }
        }
        claim
    }

    /// Whether `claim` may be used for a transfer.
    pub fn check_claim_live(&self, claim: &InterfaceClaim) -> (r: Result<(), Error>)
        ensures
            r == self.claim_status(*claim),
    {
        match self.state {
            DeviceState::Opened => {},
            DeviceState::Reset => {
                return Err(Error::Invalid);
            },
            DeviceState::Forgotten => {
                return Err(Error::Disconnected);
            },
        }
        match self.position(claim) {
            Some(_) => Ok(()),
            None => Err(Error::Invalid),
        }
    }

    /// Where `claim` stands among the live claims.
    pub fn position(&self, claim: &InterfaceClaim) -> (r: Option<usize>)
        ensures
            match r {
                Some(k) => k < self.live_claims().len() && self.live_claims()[k as int] == *claim,
                None => !self.live_claims().contains(*claim),
            },
    {
        let mut i: usize = 0;
        while i < self.claims.len()
            invariant
                i <= self.claims@.len(),
                forall|k: int| 0 <= k < i ==> self.claims@[k] != *claim,
            decreases self.claims@.len() - i,
        {
            if self.claims[i] == *claim {
                return Some(i);
            }
            i = i + 1;
        }
        None
    }

    /// Releases a live claim; a stale one is refused with the error that
    /// says why, and nothing changes.
    pub fn release(&mut self, claim: &InterfaceClaim) -> (r: Result<usize, Error>)
        requires
            old(self).wf(),
        ensures
            final(self).wf(),
            final(self).phase() == old(self).phase(),
            !final(self).exhausted() == !old(self).exhausted(),
            match old(self).claim_status(*claim) {
                Ok(()) => r matches Ok(k) && k < old(self).live_claims().len()
                    && old(self).live_claims()[k as int] == *claim
                    && final(self).live_claims() == old(self).live_claims().remove(k as int),
                Err(e) => r == Err::<usize, Error>(e) && final(self).live_claims() == old(self).live_claims(),
            },
            !final(self).live_claims().contains(*claim),
    {
        if let Err(e) = self.check_claim_live(claim) {
            return Err(e);
        }
        match self.position(claim) {
            Some(k) => {
                self.claims.remove(k);
                assert forall|a: int, b: int|
                    0 <= a < self.claims@.len() && 0 <= b < self.claims@.len() && a != b implies {
                        &&& (#[trigger] self.claims@[a]).id != (#[trigger] self.claims@[b]).id
                        &&& self.claims@[a].number != self.claims@[b].number
                    } by {
                    let a0 = if a < k { a } else { a + 1 };
                    let b0 = if b < k { b } else { b + 1 };
                    assert(self.claims@[a] == old(self).claims@[a0]);
                    assert(self.claims@[b] == old(self).claims@[b0]);
                }
                assert(!self.live_claims().contains(*claim)) by {
                    if self.live_claims().contains(*claim) {
                        let j = choose|j: int| 0 <= j < self.claims@.len() && self.claims@[j] == *claim;
                        let j0 = if j < k { j } else { j + 1 };
                        assert(old(self).claims@[j0] == *claim);
                        assert(old(self).claims@[k as int] == *claim);
                    }
                }
                Ok(k)
            },
            None => Err(Error::Invalid),
        }
    }

    /// Records a reset: every claim is dropped and the device is no longer
    /// usable.
    pub fn record_reset(&mut self)
        requires
            old(self).wf(),
            old(self).phase() == DeviceState::Opened,
        ensures
            final(self).wf(),
            final(self).phase() == DeviceState::Reset,
            final(self).live_claims() == Seq::<InterfaceClaim>::empty(),
    {
        self.state = DeviceState::Reset;
        self.claims = Vec::new();
    }

    /// Records a forget: every claim is dropped and the device leaves the
    /// authorized set.
    pub fn record_forget(&mut self)
        requires
            old(self).wf(),
            old(self).phase() == DeviceState::Opened,
        ensures
            final(self).wf(),
            final(self).phase() == DeviceState::Forgotten,
            final(self).live_claims() == Seq::<InterfaceClaim>::empty(),
    {
        self.state = DeviceState::Forgotten;
        self.claims = Vec::new();
    }
}

/// What claiming interface `number` does to a lifecycle, from `before` to
/// `after`, with result `r`: a device no longer opened refuses with its
/// stale error; an interface already claimed, or a claim the transport
/// refuses, is a communication error; a success adds the new claim.
pub open spec fn claim_outcome(
    before: Lifecycle,
    after: Lifecycle,
    number: u8,
    r: Result<InterfaceClaim, Error>,
) -> bool {
    &&& after.wf()
    &&& after.phase() == before.phase()
    &&& before.phase() != DeviceState::Opened ==> r == Err::<InterfaceClaim, Error>(stale_error(before.phase()))
    &&& before.phase() == DeviceState::Opened ==> (r matches Err(e) ==> e is CommunicationError)
    &&& match r {
        Ok(c) => {
            &&& before.can_claim(number)
            &&& c.number_spec() == number
            &&& after.live_claims() == before.live_claims().push(c)
        },
        Err(_) => after.live_claims() == before.live_claims(),
    }
}

/// What a reset or a forget does to a lifecycle, from `before` to `after`,
/// with result `r`: a device no longer opened refuses with its stale error
/// and a refusal by the transport is a communication error, both changing
/// nothing; a success drops every claim and leaves the device unusable.
pub open spec fn release_all_outcome(before: Lifecycle, after: Lifecycle, r: Result<(), Error>) -> bool {
    &&& after.wf()
    &&& before.phase() != DeviceState::Opened ==> r == Err::<(), Error>(stale_error(before.phase()))
    &&& match r {
        Ok(()) => {
            &&& before.phase() == DeviceState::Opened
            &&& after.phase() != DeviceState::Opened
            &&& after.live_claims() == Seq::<InterfaceClaim>::empty()
        },
        Err(e) => {
            &&& before.phase() == DeviceState::Opened ==> e is CommunicationError
            &&& after == before
        },
    }
}

/// Two resets in a row: when the first went through, the second is refused
/// with `Invalid` (or `Disconnected`, after a forget) and changes nothing;
/// it is never a second success.
pub proof fn lemma_reset_twice_is_refused(
    first: Lifecycle,
    between: Lifecycle,
    r1: Result<(), Error>,
    after: Lifecycle,
    r2: Result<(), Error>,
)
    requires
        release_all_outcome(first, between, r1),
        r1 is Ok,
        release_all_outcome(between, after, r2),
    ensures
        r2 == Err::<(), Error>(Error::Invalid) || r2 == Err::<(), Error>(Error::Disconnected),
        between.phase() == DeviceState::Reset ==> r2 == Err::<(), Error>(Error::Invalid),
        after == between,
{
}

/// A claim that is no longer live is refused: with `Invalid` on a device
/// that was not forgotten.
pub proof fn lemma_released_claim_is_stale(l: Lifecycle, claim: InterfaceClaim)
    requires
        !l.live_claims().contains(claim),
    ensures
        l.claim_status(claim) is Err,
        l.phase() != DeviceState::Forgotten ==> l.claim_status(claim) == Err::<(), Error>(Error::Invalid),
{
}

} // verus!
