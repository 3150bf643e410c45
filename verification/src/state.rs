use vstd::prelude::*;

verus! {

/// Minimum stake locked at registration, in base units of the staked asset.
pub const MIN_STAKE: u64 = 10_000 * 1_000_000;
/// Minimum heartbeat interval: seven days, in seconds.
pub const MIN_INTERVAL: i64 = 7 * 24 * 60 * 60;
/// Minimum grace period: twenty-four hours, in seconds.
pub const MIN_GRACE_PERIOD: i64 = 24 * 60 * 60;
/// Capacity of the beneficiary ledger.
pub const MAX_BENEFICIARIES: usize = 10;
/// Number of recovery-wallet (guardian) slots.
pub const MAX_RECOVERY_WALLETS: usize = 3;
/// Awakening bounty, in basis points of the stake.
pub const SILENCE_BOUNTY_BPS: u64 = 500;
/// Share of the stake destroyed on abandonment, in basis points.
pub const BURN_ON_ABANDON_BPS: u64 = 5_000;
/// Basis-point denominator.
pub const BPS_DENOMINATOR: u64 = 10_000;
/// Length of the stored display name, in bytes.
pub const DISPLAY_NAME_LEN: usize = 32;
/// Length of the stored image reference, in bytes.
pub const IMAGE_URI_LEN: usize = 128;
/// A payout instruction that moves value to its recipient.
pub const ACTION_TRANSFER: u8 = 0;
/// A payout instruction that destroys value.
pub const ACTION_BURN: u8 = 1;

/// The identity of a principal (an owner, guardian, beneficiary or asset):
/// an opaque handle that the core only ever compares for equality. The host
/// maps it to and from its own addressing scheme.
#[derive(PartialEq, Eq, Structural, Clone, Copy, Debug, Hash)]
pub struct Identity {
    pub id: u64,
}

/// One entry of the beneficiary ledger: a payout instruction, independently
/// settleable exactly once.
#[derive(PartialEq, Eq, Clone, Copy, Debug)]
pub struct Beneficiary {
    /// Who receives the payout (meaningful for `ACTION_TRANSFER`).
    pub recipient: Identity,
    /// How much of the asset the settlement moves or destroys.
    pub amount: u64,
    /// The asset the settlement is made in; must match at settlement time.
    pub token_mint: Option<Identity>,
    /// `ACTION_TRANSFER` or `ACTION_BURN`.
    pub action: u8,
    /// Set once this entry has been settled; never settled again.
    pub executed: bool,
}

impl Beneficiary {
    /// The value an unused ledger slot holds.
    pub open spec fn empty() -> Beneficiary {
        Beneficiary {
            recipient: Identity { id: 0 },
            amount: 0,
            token_mint: None,
            action: ACTION_TRANSFER,
            executed: false,
        }
    }
}

impl Default for Beneficiary {
    fn default() -> (r: Beneficiary)
        ensures
            r == Beneficiary::empty(),
    {
        Beneficiary {
            recipient: Identity { id: 0 },
            amount: 0,
            token_mint: None,
            action: ACTION_TRANSFER,
            executed: false,
        }
    }
}

/// The mathematical model of a custody record. Every operation's contract is
/// stated as a transition on this view.
#[verifier::ext_equal]
pub ghost struct GhostView {
    pub owner: Identity,
    pub recovery_wallets: Seq<Option<Identity>>,
    pub last_heartbeat: i64,
    pub interval_seconds: i64,
    pub grace_period_seconds: i64,
    pub awakened: bool,
    pub awakened_at: Option<i64>,
    pub executed: bool,
    pub executed_at: Option<i64>,
    pub staked_ghost: u64,
    pub registered_at: i64,
    pub ping_count: u64,
    pub beneficiary_count: u8,
    pub beneficiaries: Seq<Beneficiary>,
    pub whole_vault_recipient: Option<Identity>,
    pub paused: bool,
    pub pending_owner: Option<Identity>,
    pub whole_vault_action: u8,
    pub display_name: Seq<u8>,
    pub image_uri: Seq<u8>,
}

impl GhostView {
    /// Well-formedness of a record. Established at registration and preserved
    /// by every operation: the ledger has fixed capacity with its live entries
    /// packed gap-free at the front, the timers respect their minimums, the
    /// awakening and execution flags agree with their timestamps, and an
    /// executed record is an awakened one.
    pub open spec fn wf(self) -> bool {
        &&& self.beneficiaries.len() == MAX_BENEFICIARIES as int
        &&& self.recovery_wallets.len() == MAX_RECOVERY_WALLETS as int
        &&& self.display_name.len() == DISPLAY_NAME_LEN as int
        &&& self.image_uri.len() == IMAGE_URI_LEN as int
        &&& self.beneficiary_count as int <= MAX_BENEFICIARIES as int
        &&& forall|i: int|
            self.beneficiary_count as int <= i < MAX_BENEFICIARIES as int
                ==> self.beneficiaries[i] == Beneficiary::empty()
        &&& self.awakened <==> self.awakened_at is Some
        &&& self.executed <==> self.executed_at is Some
        &&& self.awakened ==> 0 <= self.awakened_at->Some_0
        &&& self.executed ==> 0 <= self.executed_at->Some_0
        &&& 0 <= self.last_heartbeat
        &&& 0 <= self.registered_at
        &&& MIN_INTERVAL <= self.interval_seconds
        &&& MIN_GRACE_PERIOD <= self.grace_period_seconds
        &&& MIN_STAKE <= self.staked_ghost
        &&& self.executed ==> self.awakened
    }

    /// Whether `key` occupies one of the recovery-wallet slots, i.e. is a
    /// guardian of this record.
    pub open spec fn is_guardian(self, key: Identity) -> bool {
        spec_is_recovery_wallet(self.recovery_wallets, key)
    }

    /// The last instant at which an awakening can still be cancelled.
    pub open spec fn grace_deadline(self) -> int
        recommends
            self.awakened,
    {
        self.awakened_at->Some_0 + self.grace_period_seconds
    }
}

/// One owner's custody record: the single unit of state every operation acts
/// on. The host stores it, addresses it by owner identity, and serializes
/// conflicting operations against it.
#[derive(Clone, Debug)]
pub struct GhostAccount {
    /// The controlling principal.
    pub owner: Identity,
    /// Up to three optional guardian identities with emergency powers.
    pub recovery_wallets: Vec<Option<Identity>>,
    /// When the owner last proved liveness.
    pub last_heartbeat: i64,
    /// Silence longer than this makes the record awakenable.
    pub interval_seconds: i64,
    /// How long after awakening a cancellation is still possible.
    pub grace_period_seconds: i64,
    /// Silence was detected and the grace window started.
    pub awakened: bool,
    /// When the awakening happened; present exactly when `awakened`.
    pub awakened_at: Option<i64>,
    /// The grace window elapsed and payouts are unlocked. Terminal.
    pub executed: bool,
    /// When execution happened; present exactly when `executed`.
    pub executed_at: Option<i64>,
    /// The stake locked at registration; immutable except via abandonment.
    pub staked_ghost: u64,
    /// When the record was created.
    pub registered_at: i64,
    /// Monotonically increasing heartbeat counter.
    pub ping_count: u64,
    /// How many leading slots of `beneficiaries` are live entries.
    pub beneficiary_count: u8,
    /// The payout ledger: always `MAX_BENEFICIARIES` slots, the live ones
    /// packed at the front, the rest holding the empty entry.
    pub beneficiaries: Vec<Beneficiary>,
    /// Alternative payout target claiming the vault's whole balance.
    pub whole_vault_recipient: Option<Identity>,
    /// Owner-controlled switch blocking beneficiary mutation and awakening.
    pub paused: bool,
    /// In-flight ownership transfer target, if any.
    pub pending_owner: Option<Identity>,
    /// Action of the whole-vault payout; `ACTION_TRANSFER` when cleared.
    pub whole_vault_action: u8,
    /// Cosmetic display name, fixed at `DISPLAY_NAME_LEN` bytes.
    pub display_name: Vec<u8>,
    /// Cosmetic image reference, fixed at `IMAGE_URI_LEN` bytes.
    pub image_uri: Vec<u8>,
}

impl View for GhostAccount {
    type V = GhostView;

    open spec fn view(&self) -> GhostView {
        GhostView {
            owner: self.owner,
            recovery_wallets: self.recovery_wallets@,
            last_heartbeat: self.last_heartbeat,
            interval_seconds: self.interval_seconds,
            grace_period_seconds: self.grace_period_seconds,
            awakened: self.awakened,
            awakened_at: self.awakened_at,
            executed: self.executed,
            executed_at: self.executed_at,
            staked_ghost: self.staked_ghost,
            registered_at: self.registered_at,
            ping_count: self.ping_count,
            beneficiary_count: self.beneficiary_count,
            beneficiaries: self.beneficiaries@,
            whole_vault_recipient: self.whole_vault_recipient,
            paused: self.paused,
            pending_owner: self.pending_owner,
            whole_vault_action: self.whole_vault_action,
            display_name: self.display_name@,
            image_uri: self.image_uri@,
        }
    }
}

/// Whether `key` occupies one of the slots of `wallets`.
pub open spec fn spec_is_recovery_wallet(wallets: Seq<Option<Identity>>, key: Identity) -> bool {
    exists|i: int| 0 <= i < wallets.len() && wallets[i] == Some(key)
}

/// A basis-point share of an amount never exceeds the amount itself.
pub proof fn lemma_bps_fraction_le(s: u64, bps: u64)
    requires
        bps <= BPS_DENOMINATOR,
    ensures
        s * bps / (BPS_DENOMINATOR as int) <= s,
{
    vstd::arithmetic::mul::lemma_mul_inequality(bps as int, BPS_DENOMINATOR as int, s as int);
    vstd::arithmetic::div_mod::lemma_div_is_ordered(
        s * bps,
        (BPS_DENOMINATOR as int) * (s as int),
        BPS_DENOMINATOR as int,
    );
    vstd::arithmetic::div_mod::lemma_div_multiples_vanish(s as int, BPS_DENOMINATOR as int);
}

/// A freshly pushed ledger of `MAX_BENEFICIARIES` empty slots.
pub(crate) fn empty_beneficiaries() -> (r: Vec<Beneficiary>)
    ensures
        r@ == Seq::new(MAX_BENEFICIARIES as nat, |i: int| Beneficiary::empty()),
{
    let mut v: Vec<Beneficiary> = Vec::new();
    let mut i: usize = 0;
    while i < MAX_BENEFICIARIES
        invariant
            i <= MAX_BENEFICIARIES,
            v@.len() == i as int,
            forall|j: int| 0 <= j < i as int ==> v@[j] == Beneficiary::empty(),
        decreases MAX_BENEFICIARIES - i,
    {
        v.push(Beneficiary::default());
        i = i + 1;
    }
    proof {
        assert(v@ =~= Seq::new(MAX_BENEFICIARIES as nat, |j: int| Beneficiary::empty()));
    }
    v
}

/// All guardian slots vacant.
pub(crate) fn empty_recovery_wallets() -> (r: Vec<Option<Identity>>)
    ensures
        r@ == Seq::new(MAX_RECOVERY_WALLETS as nat, |i: int| None::<Identity>),
{
    let mut v: Vec<Option<Identity>> = Vec::new();
    v.push(None);
    v.push(None);
    v.push(None);
    proof {
        assert(v@ =~= Seq::new(MAX_RECOVERY_WALLETS as nat, |j: int| None::<Identity>));
    }
    v
}

/// `n` zero bytes, for the cosmetic fixed-width text fields.
pub(crate) fn zero_bytes(n: usize) -> (r: Vec<u8>)
    ensures
        r@ == Seq::new(n as nat, |i: int| 0u8),
{
    let mut v: Vec<u8> = Vec::new();
    let mut i: usize = 0;
    while i < n
        invariant
            i <= n,
            v@.len() == i as int,
            forall|j: int| 0 <= j < i as int ==> v@[j] == 0u8,
        decreases n - i,
    {
        v.push(0u8);
        i = i + 1;
    }
    proof {
        assert(v@ =~= Seq::new(n as nat, |j: int| 0u8));
    }
    v
}

/// Guardian membership test: `key` is a guardian exactly when some
/// recovery-wallet slot holds it.
pub fn is_recovery_wallet(wallets: &Vec<Option<Identity>>, key: Identity) -> (r: bool)
    ensures
        r == spec_is_recovery_wallet(wallets@, key),
{
    let mut i: usize = 0;
    while i < wallets.len()
        invariant
            0 <= i <= wallets@.len(),
            forall|j: int| 0 <= j < i ==> wallets@[j] != Some(key),
        decreases wallets@.len() - i,
    {
        match wallets[i] {
            Some(w) => {
                if w == key {
                    assert(wallets@[i as int] == Some(key));
                    return true;
                }
            },
            None => {},
        }
        i = i + 1;
    }
    false
}

} // verus!
