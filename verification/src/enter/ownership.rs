//! Who still owes work to a parked request.
//!
//! Each ring has one ledger. At most one owner of each kind holds a token, and
//! the ring's slot can be reused only once every token has come back.

use crate::bits;
use crate::session::{PendingError, PendingInstallId, SessionRingBrand};
use vstd::prelude::*;

verus! {

/// Who an owner is.
#[derive(Clone, Copy, Debug, PartialEq, Eq, Structural)]
pub enum PendingOwnerKind {
    Installer,
    Worker,
    Dpc,
    Cancel,
}

impl PendingOwnerKind {
    /// The place of this kind in the ledger's mask.
    pub open spec fn place(self) -> u8 {
        match self {
            PendingOwnerKind::Installer => 0,
            PendingOwnerKind::Worker => 1,
            PendingOwnerKind::Dpc => 2,
            PendingOwnerKind::Cancel => 3,
        }
    }

    /// This kind's bit in the ledger's mask.
    fn bit(self) -> (bit: u8)
        ensures
            bit == bits::bit(self.place()),
    {
        proof {
            bits::lemma_bit_values();
        }
        match self {
            PendingOwnerKind::Installer => 1,
            PendingOwnerKind::Worker => 2,
            PendingOwnerKind::Dpc => 4,
            PendingOwnerKind::Cancel => 8,
        }
    }
}

/// One owner's share of one install. It cannot be copied, and only the ledger
/// makes and takes it.
#[must_use]
#[derive(Debug)]
pub struct PendingOwnerToken {
    install: PendingInstallId,
    kind: PendingOwnerKind,
}

/// What a token stands for.
pub struct TokenModel {
    pub install: PendingInstallId,
    pub kind: PendingOwnerKind,
}

impl View for PendingOwnerToken {
    type V = TokenModel;

    closed spec fn view(&self) -> TokenModel {
        TokenModel { install: self.install, kind: self.kind }
    }
}

impl PendingOwnerToken {
    /// The install this owner works for.
    pub fn install(&self) -> (install: PendingInstallId)
        ensures
            install == self@.install,
    {
        self.install
    }

    /// Who this owner is.
    pub fn kind(&self) -> (kind: PendingOwnerKind)
        ensures
            kind == self@.kind,
    {
        self.kind
    }
}

/// The owners of one ring's parked request.
#[derive(Debug)]
pub struct PendingOwnerLedger {
    brand: SessionRingBrand,
    install: Option<PendingInstallId>,
    owners: u32,
    occupied_kinds: u8,
    closing: bool,
}

/// What a ledger holds: its ring, the install bound to it, who holds a token,
/// and whether it stopped giving tokens out.
pub struct LedgerModel {
    pub brand: SessionRingBrand,
    pub install: Option<PendingInstallId>,
    pub owners: Set<PendingOwnerKind>,
    pub closing: bool,
}

spec fn kinds(mask: u8) -> Set<PendingOwnerKind> {
    Set::new(|kind: PendingOwnerKind| bits::in_mask(mask, kind.place()))
}

/// One if `held`, and nothing otherwise.
pub open spec fn indicator(held: bool) -> nat {
    if held {
        1
    } else {
        0
    }
}

/// The number of kinds in a set is the sum over the four kinds.
proof fn lemma_kinds_len(owners: Set<PendingOwnerKind>)
    ensures
        owners.finite(),
        owners.len() == indicator(owners.contains(PendingOwnerKind::Installer)) + indicator(
            owners.contains(PendingOwnerKind::Worker),
        ) + indicator(owners.contains(PendingOwnerKind::Dpc)) + indicator(
            owners.contains(PendingOwnerKind::Cancel),
        ),
{
    let s0 = Set::<PendingOwnerKind>::empty();
    let s1 = if owners.contains(PendingOwnerKind::Installer) {
        s0.insert(PendingOwnerKind::Installer)
    } else {
        s0
    };
    let s2 = if owners.contains(PendingOwnerKind::Worker) {
        s1.insert(PendingOwnerKind::Worker)
    } else {
        s1
    };
    let s3 = if owners.contains(PendingOwnerKind::Dpc) {
        s2.insert(PendingOwnerKind::Dpc)
    } else {
        s2
    };
    let s4 = if owners.contains(PendingOwnerKind::Cancel) {
        s3.insert(PendingOwnerKind::Cancel)
    } else {
        s3
    };
    assert forall|kind: PendingOwnerKind| owners.contains(kind) <==> s4.contains(kind) by {
        match kind {
            PendingOwnerKind::Installer => {},
            PendingOwnerKind::Worker => {},
            PendingOwnerKind::Dpc => {},
            PendingOwnerKind::Cancel => {},
        }
    }
    assert(owners =~= s4);
}

proof fn lemma_acquired(mask: u8, kind: PendingOwnerKind)
    ensures
        kinds(mask | bits::bit(kind.place())) == kinds(mask).insert(kind),
{
    assert forall|other: PendingOwnerKind|
        kinds(mask | bits::bit(kind.place())).contains(other) <==> kinds(mask).insert(
            kind,
        ).contains(other) by {
        bits::lemma_insert(mask, kind.place(), other.place());
    }
    assert(kinds(mask | bits::bit(kind.place())) =~= kinds(mask).insert(kind));
}

proof fn lemma_released(mask: u8, kind: PendingOwnerKind)
    ensures
        kinds(mask & !bits::bit(kind.place())) == kinds(mask).remove(kind),
{
    assert forall|other: PendingOwnerKind|
        kinds(mask & !bits::bit(kind.place())).contains(other) <==> kinds(mask).remove(
            kind,
        ).contains(other) by {
        bits::lemma_remove(mask, kind.place(), other.place());
    }
    assert(kinds(mask & !bits::bit(kind.place())) =~= kinds(mask).remove(kind));
}

impl View for PendingOwnerLedger {
    type V = LedgerModel;

    closed spec fn view(&self) -> LedgerModel {
        LedgerModel {
            brand: self.brand,
            install: self.install,
            owners: kinds(self.occupied_kinds),
            closing: self.closing,
        }
    }
}

/// Why a token is not given out, if it is not.
pub open spec fn acquire_refusal(
    ledger: LedgerModel,
    install: PendingInstallId,
    kind: PendingOwnerKind,
) -> Option<PendingError> {
    if ledger.closing {
        Some(PendingError::Closing)
    } else if ledger.install != Some(install) {
        Some(PendingError::WrongInstall)
    } else if ledger.owners.contains(kind) {
        Some(PendingError::DuplicateOwner)
    } else {
        None
    }
}

/// Why a token is not taken back, if it is not.
pub open spec fn release_refusal(ledger: LedgerModel, token: TokenModel) -> Option<PendingError> {
    if ledger.install != Some(token.install) {
        Some(PendingError::WrongInstall)
    } else if !ledger.owners.contains(token.kind) {
        Some(PendingError::WrongOwnerKind)
    } else {
        None
    }
}

impl PendingOwnerLedger {
    /// The count is the number of kinds that hold a token.
    #[verifier::type_invariant]
    closed spec fn inv(self) -> bool {
        self.owners == kinds(self.occupied_kinds).len()
    }

    /// An open ledger with no install and no owner.
    pub fn for_brand(brand: SessionRingBrand) -> (ledger: Self)
        ensures
            ledger@ == (LedgerModel {
                brand,
                install: None,
                owners: Set::empty(),
                closing: false,
            }),
    {
        proof {
            assert forall|kind: PendingOwnerKind| !kinds(0).contains(kind) by {
                bits::lemma_empty(kind.place());
            }
            assert(kinds(0) =~= Set::empty());
        }
        Self { brand, install: None, owners: 0, occupied_kinds: 0, closing: false }
    }

    /// The ring this ledger belongs to.
    pub fn brand(&self) -> (brand: SessionRingBrand)
        ensures
            brand == self@.brand,
    {
        self.brand
    }

    /// No owner holds a token.
    pub fn is_empty(&self) -> (empty: bool)
        ensures
            empty <==> self@.owners == Set::<PendingOwnerKind>::empty(),
    {
        self.owners_drained()
    }

    /// Bind the one install this ledger accounts for.
    pub fn bind_install(&mut self, install: PendingInstallId) -> (result: Result<(), PendingError>)
        ensures
            match result {
                Ok(()) => {
                    &&& install.brand == old(self)@.brand
                    &&& old(self)@.install is None
                    &&& final(self)@ == (LedgerModel { install: Some(install), ..old(self)@ })
                },
                Err(PendingError::WrongRing) => install.brand != old(self)@.brand && *final(self)
                    == *old(self),
                Err(PendingError::SlotOccupied) => {
                    &&& install.brand == old(self)@.brand
                    &&& old(self)@.install is Some
                    &&& *final(self) == *old(self)
                },
                Err(_) => false,
            },
    {
        proof {
            use_type_invariant(&*self);
        }
        if install.brand != self.brand {
            return Err(PendingError::WrongRing);
        }
        if self.install.is_some() {
            return Err(PendingError::SlotOccupied);
        }
        self.install = Some(install);
        Ok(())
    }

    /// Unbind an install that no owner works for any more.
    pub fn unbind_install(&mut self, install: PendingInstallId) -> (result: Result<
        (),
        PendingError,
    >)
        ensures
            match result {
                Ok(()) => {
                    &&& old(self)@.install == Some(install)
                    &&& old(self)@.owners == Set::<PendingOwnerKind>::empty()
                    &&& final(self)@ == (LedgerModel { install: None, ..old(self)@ })
                },
                Err(PendingError::WrongInstall) => old(self)@.install != Some(install)
                    && *final(self) == *old(self),
                Err(PendingError::OwnersRemain) => {
                    &&& old(self)@.install == Some(install)
                    &&& old(self)@.owners != Set::<PendingOwnerKind>::empty()
                    &&& *final(self) == *old(self)
                },
                Err(_) => false,
            },
    {
        proof {
            use_type_invariant(&*self);
            lemma_kinds_len(self@.owners);
        }
        if self.install != Some(install) {
            return Err(PendingError::WrongInstall);
        }
        if self.owners != 0 {
            proof {
                assert(self@.owners.len() != 0);
            }
            return Err(PendingError::OwnersRemain);
        }
        proof {
            assert(self@.owners =~= Set::empty());
        }
        self.install = None;
        Ok(())
    }

    /// The bound install, if any.
    pub fn bound_install(&self) -> (install: Option<PendingInstallId>)
        ensures
            install == self@.install,
    {
        self.install
    }

    /// How many owners hold a token.
    pub fn owner_count(&self) -> (count: u32)
        ensures
            count == self@.owners.len(),
            self@.owners.finite(),
    {
        proof {
            use_type_invariant(self);
            lemma_kinds_len(self@.owners);
        }
        self.owners
    }

    /// Whether the owner of this kind holds its token.
    pub fn holds(&self, kind: PendingOwnerKind) -> (held: bool)
        ensures
            held <==> self@.owners.contains(kind),
    {
        self.occupied_kinds & kind.bit() != 0
    }

    /// Whether this ledger stopped giving tokens out.
    pub fn is_closing(&self) -> (closing: bool)
        ensures
            closing == self@.closing,
    {
        self.closing
    }

    /// Give the token of one kind out.
    pub fn acquire_owner(&mut self, install: PendingInstallId, kind: PendingOwnerKind) -> (result:
        Result<PendingOwnerToken, PendingError>)
        ensures
            match result {
                Ok(token) => {
                    &&& acquire_refusal(old(self)@, install, kind) is None
                    &&& token@ == (TokenModel { install, kind })
                    &&& final(self)@ == (LedgerModel {
                        owners: old(self)@.owners.insert(kind),
                        ..old(self)@
                    })
                },
                Err(error) => acquire_refusal(old(self)@, install, kind) == Some(error)
                    && *final(self) == *old(self),
            },
    {
        proof {
            use_type_invariant(&*self);
            lemma_kinds_len(self@.owners);
            lemma_acquired(self.occupied_kinds, kind);
        }
        if self.closing {
            return Err(PendingError::Closing);
        }
        if self.install != Some(install) {
            return Err(PendingError::WrongInstall);
        }
        if self.holds(kind) {
            return Err(PendingError::DuplicateOwner);
        }
        *self = Self {
            brand: self.brand,
            install: self.install,
            owners: self.owners + 1,
            occupied_kinds: self.occupied_kinds | kind.bit(),
            closing: self.closing,
        };
        Ok(PendingOwnerToken { install, kind })
    }

    /// Take a token back. A refusal returns it.
    pub fn release_owner(&mut self, token: PendingOwnerToken) -> (result: Result<
        (),
        (PendingError, PendingOwnerToken),
    >)
        ensures
            match result {
                Ok(()) => {
                    &&& release_refusal(old(self)@, token@) is None
                    &&& final(self)@ == (LedgerModel {
                        owners: old(self)@.owners.remove(token@.kind),
                        ..old(self)@
                    })
                },
                Err((error, returned)) => {
                    &&& release_refusal(old(self)@, token@) == Some(error)
                    &&& returned == token
                    &&& *final(self) == *old(self)
                },
            },
    {
        proof {
            use_type_invariant(&*self);
            lemma_kinds_len(self@.owners);
            lemma_released(self.occupied_kinds, token.kind);
        }
        if self.install != Some(token.install) {
            return Err((PendingError::WrongInstall, token));
        }
        if !self.holds(token.kind) {
            return Err((PendingError::WrongOwnerKind, token));
        }
        *self = Self {
            brand: self.brand,
            install: self.install,
            owners: self.owners - 1,
            occupied_kinds: self.occupied_kinds & !token.kind.bit(),
            closing: self.closing,
        };
        Ok(())
    }

    /// Stop giving tokens out. Tokens already out still come back.
    pub fn begin_closing(&mut self)
        ensures
            final(self)@ == (LedgerModel { closing: true, ..old(self)@ }),
    {
        proof {
            use_type_invariant(&*self);
        }
        self.closing = true;
    }

    /// Every token has come back.
    pub fn owners_drained(&self) -> (drained: bool)
        ensures
            drained <==> self@.owners == Set::<PendingOwnerKind>::empty(),
    {
        proof {
            use_type_invariant(self);
            lemma_kinds_len(self@.owners);
            assert(self.owners == 0 ==> self@.owners =~= Set::empty());
        }
        self.owners == 0
    }
}

/// A token that was given out is taken back, and the ledger is then as it was,
/// also when it stopped giving tokens out in between.
pub proof fn law_release_undoes_acquire(
    ledger: LedgerModel,
    install: PendingInstallId,
    kind: PendingOwnerKind,
    closing: bool,
)
    requires
        acquire_refusal(ledger, install, kind) is None,
    ensures
        ({
            let taken = LedgerModel { owners: ledger.owners.insert(kind), closing, ..ledger };
            let back = LedgerModel { owners: taken.owners.remove(kind), ..taken };
            &&& release_refusal(taken, TokenModel { install, kind }) is None
            &&& back == (LedgerModel { closing, ..ledger })
        }),
{
    assert(ledger.owners.insert(kind).remove(kind) =~= ledger.owners);
}

/// Each kind holds at most one token: while it is out, none is given out again,
/// and once it came back, giving it back a second time is refused.
pub proof fn law_one_token_per_kind(
    ledger: LedgerModel,
    install: PendingInstallId,
    kind: PendingOwnerKind,
)
    ensures
        acquire_refusal(
            LedgerModel { owners: ledger.owners.insert(kind), ..ledger },
            install,
            kind,
        ) is Some,
        release_refusal(
            LedgerModel { owners: ledger.owners.remove(kind), ..ledger },
            TokenModel { install, kind },
        ) is Some,
{
}

/// A token is taken exactly while the ledger is open, for the bound install, of a
/// kind that nobody holds. A closing ledger is reported first, then another
/// install, then the kind.
pub proof fn law_token_is_taken_exactly(
    ledger: LedgerModel,
    install: PendingInstallId,
    kind: PendingOwnerKind,
)
    ensures
        acquire_refusal(ledger, install, kind) is None <==> !ledger.closing && ledger.install
            == Some(install) && !ledger.owners.contains(kind),
        acquire_refusal(ledger, install, kind) == Some(PendingError::Closing) <==> ledger.closing,
        acquire_refusal(ledger, install, kind) == Some(PendingError::WrongInstall) <==>
            !ledger.closing && ledger.install != Some(install),
        acquire_refusal(ledger, install, kind) == Some(PendingError::DuplicateOwner) <==>
            !ledger.closing && ledger.install == Some(install) && ledger.owners.contains(kind),
{
}

/// A token is given back exactly to the ledger of its install while its kind is
/// held, closing or not. Another install is reported first.
pub proof fn law_token_is_given_back_exactly(ledger: LedgerModel, token: TokenModel)
    ensures
        release_refusal(ledger, token) is None <==> ledger.install == Some(token.install)
            && ledger.owners.contains(token.kind),
        release_refusal(ledger, token) == Some(PendingError::WrongInstall) <==> ledger.install
            != Some(token.install),
        release_refusal(ledger, token) == Some(PendingError::WrongOwnerKind) <==> ledger.install
            == Some(token.install) && !ledger.owners.contains(token.kind),
{
}

/// A ledger is bound exactly while it is free, to an install of its ring, and let go
/// exactly by that install once every token is back.
pub proof fn law_ledger_is_bound_and_let_go(
    bound: &mut PendingOwnerLedger,
    freed: &mut PendingOwnerLedger,
    install: PendingInstallId,
    begun: Result<(), PendingError>,
    over: Result<(), PendingError>,
)
    requires
        call_ensures(PendingOwnerLedger::bind_install, (bound, install), begun),
        call_ensures(PendingOwnerLedger::unbind_install, (freed, install), over),
    ensures
        ({
            let before = old(bound)@;
            let own = install.brand == before.brand;
            let free = before.install is None;
            &&& begun is Ok <==> own && free
            &&& begun is Ok ==> final(bound)@ == (LedgerModel { install: Some(install), ..before })
            &&& begun == Err::<(), _>(PendingError::WrongRing) <==> !own
            &&& begun == Err::<(), _>(PendingError::SlotOccupied) <==> own && !free
            &&& begun is Err ==> final(bound)@ == before
        }),
        ({
            let before = old(freed)@;
            let own = before.install == Some(install);
            let drained = before.owners == Set::<PendingOwnerKind>::empty();
            &&& over is Ok <==> own && drained
            &&& over is Ok ==> final(freed)@ == (LedgerModel { install: None, ..before })
            &&& over == Err::<(), _>(PendingError::WrongInstall) <==> !own
            &&& over == Err::<(), _>(PendingError::OwnersRemain) <==> own && !drained
            &&& over is Err ==> final(freed)@ == before
        }),
{
}

/// A token is taken exactly from an open ledger, for its install, of a kind nobody
/// holds, and given back exactly to the ledger of its install while its kind is
/// held. Only that kind's owner changes.
pub proof fn law_token_moves_its_kind_alone(
    taken: &mut PendingOwnerLedger,
    given: &mut PendingOwnerLedger,
    install: PendingInstallId,
    kind: PendingOwnerKind,
    token: PendingOwnerToken,
    acquired: Result<PendingOwnerToken, PendingError>,
    released: Result<(), (PendingError, PendingOwnerToken)>,
)
    requires
        call_ensures(PendingOwnerLedger::acquire_owner, (taken, install, kind), acquired),
        call_ensures(PendingOwnerLedger::release_owner, (given, token), released),
    ensures
        ({
            let before = old(taken)@;
            let own = before.install == Some(install);
            let free = !before.owners.contains(kind);
            &&& acquired is Ok <==> !before.closing && own && free
            &&& acquired == Err::<PendingOwnerToken, _>(PendingError::Closing) <==> before.closing
            &&& acquired == Err::<PendingOwnerToken, _>(PendingError::WrongInstall) <==>
                !before.closing && !own
            &&& acquired == Err::<PendingOwnerToken, _>(PendingError::DuplicateOwner) <==>
                !before.closing && own && !free
            &&& acquired is Err ==> final(taken)@ == before
            &&& acquired matches Ok(held) ==> {
                &&& held@.install == install
                &&& held@.kind == kind
                &&& final(taken)@ == (LedgerModel { owners: before.owners.insert(kind), ..before })
            }
        }),
        ({
            let before = old(given)@;
            let own = before.install == Some(token@.install);
            let held = before.owners.contains(token@.kind);
            &&& released is Ok <==> own && held
            &&& released is Ok ==> final(given)@ == (LedgerModel {
                owners: before.owners.remove(token@.kind),
                ..before
            })
            &&& released matches Err((error, returned)) ==> {
                &&& error == PendingError::WrongInstall <==> !own
                &&& error == PendingError::WrongOwnerKind <==> own && !held
                &&& returned == token
                &&& final(given)@ == before
            }
        }),
{
}

/// A ledger that is closing stays as it was but for that, and what it is asked
/// answers to the tokens it holds.
pub proof fn law_ledger_answers_to_its_tokens(
    closed: &mut PendingOwnerLedger,
    ledger: PendingOwnerLedger,
    kind: PendingOwnerKind,
    held: bool,
    empty: bool,
    drained: bool,
    closing: bool,
)
    requires
        call_ensures(PendingOwnerLedger::begin_closing, (closed,), ()),
        call_ensures(PendingOwnerLedger::holds, (&ledger, kind), held),
        call_ensures(PendingOwnerLedger::is_empty, (&ledger,), empty),
        call_ensures(PendingOwnerLedger::owners_drained, (&ledger,), drained),
        call_ensures(PendingOwnerLedger::is_closing, (&ledger,), closing),
    ensures
        final(closed)@ == (LedgerModel { closing: true, ..old(closed)@ }),
        held <==> ledger@.owners.contains(kind),
        empty <==> drained,
        held ==> !empty,
        empty <==> ledger@.owners == Set::<PendingOwnerKind>::empty(),
        closing <==> ledger@.closing,
{
    if held && empty {
        assert(Set::<PendingOwnerKind>::empty().contains(kind));
    }
}

/// A ledger begins empty, open and unbound, on its ring. It counts one for each
/// token, and a token tells its install and kind.
pub proof fn law_ledger_begins_empty(
    brand: SessionRingBrand,
    ledger: PendingOwnerLedger,
    shown: SessionRingBrand,
    later: PendingOwnerLedger,
    count: u32,
    bound: Option<PendingInstallId>,
    token: PendingOwnerToken,
    install: PendingInstallId,
    kind: PendingOwnerKind,
)
    requires
        call_ensures(PendingOwnerLedger::for_brand, (brand,), ledger),
        call_ensures(PendingOwnerLedger::brand, (&ledger,), shown),
        call_ensures(PendingOwnerLedger::owner_count, (&later,), count),
        call_ensures(PendingOwnerLedger::bound_install, (&later,), bound),
        call_ensures(PendingOwnerToken::install, (&token,), install),
        call_ensures(PendingOwnerToken::kind, (&token,), kind),
    ensures
        shown == brand,
        ledger@.install is None,
        !ledger@.closing,
        forall|held: PendingOwnerKind| !#[trigger] ledger@.owners.contains(held),
        count == indicator(later@.owners.contains(PendingOwnerKind::Installer)) + indicator(
            later@.owners.contains(PendingOwnerKind::Worker),
        ) + indicator(later@.owners.contains(PendingOwnerKind::Dpc)) + indicator(
            later@.owners.contains(PendingOwnerKind::Cancel),
        ),
        bound == later@.install,
        install == token@.install,
        kind == token@.kind,
{
    lemma_kinds_len(later@.owners);
}

} // verus!
