use vstd::prelude::*;
use vstd::pervasive::VecAdditionalExecFns;
use crate::account::AccountId;
use crate::amount::{amount_limit, Amount};

verus! {

/// Errors of the launchpad and its vesting scheduler.
#[derive(Clone, Copy, PartialEq, Eq, Structural, Debug)]
pub enum LaunchpadError {
    NotAuthorized,
    ProjectNotFound,
    ProjectAlreadyExists,
    InvalidAmount,
    TransferFailed,
    VestingNotReady,
    AlreadyClaimed,
    MathOverflow,
    MissingKey,
    InsufficientPayment,
    AlreadyLaunched,
}

/// The lifecycle state of a project.
#[derive(Clone, Copy, PartialEq, Eq, Structural, Debug)]
pub enum ProjectStatus {
    Pending,
    Launched,
    Cancelled,
}

/// The founder's vesting schedule of one launched project: `total` tokens
/// vest linearly between `cliff_time` and `end_time`, and `claimed` of them
/// have been claimed so far.
#[derive(Clone, Copy, PartialEq, Eq, Structural, Debug)]
pub struct VestingRecord {
    pub founder: AccountId,
    pub total: Amount,
    pub claimed: Amount,
    pub cliff_time: u64,
    pub end_time: u64,
}

/// One registered project; its vesting record exists once it is launched.
pub struct Project {
    pub founder: AccountId,
    pub name: String,
    pub symbol: String,
    pub supply: Amount,
    pub status: ProjectStatus,
    pub launch_time: u64,
    pub vesting: Option<VestingRecord>,
}

/// The default platform fee charged per project, in motes.
pub const DEFAULT_PLATFORM_FEE: u64 = 20_000_000_000;

/// How long after the launch the vesting cliff lies, in milliseconds: one
/// year.
pub const DEFAULT_CLIFF_MS: u64 = 365 * 24 * 60 * 60 * 1000;

/// How long after the launch the vesting ends, in milliseconds: two years.
pub const DEFAULT_VESTING_MS: u64 = 2 * 365 * 24 * 60 * 60 * 1000;

/// The tokens vested at time `now`, for `now` at or past the cliff: the
/// whole total once the end is reached, before that the linear interpolation
/// `total * (now - cliff) / (end - cliff)`, flooring.
pub open spec fn spec_vested(v: VestingRecord, now: u64) -> int {
    if now >= v.end_time {
        v.total@ as int
    } else {
        (v.total@ as int) * (now - v.cliff_time) / (v.end_time - v.cliff_time)
    }
}

/// Between the cliff and the end, the vested amount never exceeds the total.
pub proof fn lemma_vested_le_total(v: VestingRecord, now: u64)
    requires
        v.cliff_time < v.end_time,
        v.cliff_time <= now,
    ensures
        0 <= spec_vested(v, now) <= v.total@,
{
    if now < v.end_time {
        let total = v.total@ as int;
        let elapsed = now - v.cliff_time;
        let duration = v.end_time - v.cliff_time;
        vstd::arithmetic::mul::lemma_mul_nonnegative(total, elapsed);
        vstd::arithmetic::div_mod::lemma_div_pos_is_pos(total * elapsed, duration);
        vstd::arithmetic::mul::lemma_mul_inequality(elapsed, duration, total);
        vstd::arithmetic::mul::lemma_mul_is_commutative(elapsed, total);
        vstd::arithmetic::mul::lemma_mul_is_commutative(duration, total);
        vstd::arithmetic::div_mod::lemma_div_is_ordered(total * elapsed, total * duration, duration);
        vstd::arithmetic::div_mod::lemma_div_multiples_vanish(total, duration);
    }
}

/// Exactly at the end of the schedule everything has vested, so the whole
/// remainder `total - claimed` is claimable.
pub proof fn lemma_vested_at_end(v: VestingRecord, now: u64)
    requires
        now == v.end_time,
    ensures
        spec_vested(v, now) == v.total@,
        spec_vested(v, now) - v.claimed@ == v.total@ - v.claimed@,
{
}

/// A record whose claimed amount has been raised to the vested amount at
/// `now` has nothing claimable left at `now`: claiming twice with no time
/// elapsed in between finds a zero remainder.
pub proof fn lemma_claim_exhausts(v: VestingRecord, w: VestingRecord, now: u64)
    requires
        w.total == v.total,
        w.cliff_time == v.cliff_time,
        w.end_time == v.end_time,
        w.claimed@ == spec_vested(v, now),
    ensures
        spec_vested(w, now) - w.claimed@ == 0,
{
}

/// The launchpad: registered projects with sequential ids (id `i + 1` at
/// index `i`), the platform fee, and the motes accumulated from it.
pub struct LaunchpadState {
    pub admin: AccountId,
    pub platform_fee: Amount,
    /// All fees ever charged.
    pub total_fees: Amount,
    /// The motes currently held in the fee purse.
    pub fee_balance: Amount,
    pub projects: Vec<Project>,
}

impl LaunchpadState {
    /// Every vesting record is well formed: the cliff lies strictly before
    /// the end, and no more than the total has been claimed.
    pub open spec fn wf(self) -> bool {
        forall|i: int|
            0 <= i < self.projects@.len() ==> (match (#[trigger] self.projects@[i]).vesting {
                Some(v) => v.claimed@ <= v.total@ && v.cliff_time < v.end_time,
                None => true,
            })
    }

    /// The vesting record of project `id`, if the project exists and has one.
    pub open spec fn spec_vesting(self, id: u64) -> Option<VestingRecord> {
        if 1 <= id <= self.projects@.len() {
            self.projects@[id - 1].vesting
        } else {
            None
        }
    }

    /// A launchpad with no projects and the default platform fee.
    pub fn new(admin: AccountId) -> (r: LaunchpadState)
        ensures
            r.wf(),
            r.admin == admin,
            r.platform_fee@ == DEFAULT_PLATFORM_FEE,
            r.total_fees@ == 0,
            r.fee_balance@ == 0,
            r.projects@.len() == 0,
    {
        LaunchpadState {
            admin,
            platform_fee: Amount::from_u64(DEFAULT_PLATFORM_FEE),
            total_fees: Amount::from_u64(0),
            fee_balance: Amount::from_u64(0),
            projects: Vec::new(),
        }
    }

    /// Register a new project in `Pending` state, charging the platform fee
    /// into the fee purse. `Ok` carries the new project id; the caller pays
    /// the fee.
    pub fn create_project(&mut self, caller: AccountId, name: String, symbol: String, supply: &Amount) -> (r: Result<u64, LaunchpadError>)
        requires
            old(self).wf(),
            old(self).projects@.len() < 0xFFFFFFFFFFFFFFFF,
        ensures
            final(self).wf(),
            r is Ok <==> (supply@ != 0 && old(self).total_fees@ + old(self).platform_fee@
                < amount_limit() && old(self).fee_balance@ + old(self).platform_fee@
                < amount_limit()),
            r matches Ok(id) ==> id == old(self).projects@.len() + 1,
            r is Ok ==> final(self).projects@.len() == old(self).projects@.len() + 1,
            r is Ok ==> (forall|i: int|
                0 <= i < old(self).projects@.len() ==> #[trigger] final(self).projects@[i] == old(self).projects@[i]),
            r is Ok ==> ({
                let p = final(self).projects@[old(self).projects@.len() as int];
                p.founder == caller && p.name == name && p.symbol == symbol && p.supply == *supply
                    && p.status == ProjectStatus::Pending && p.launch_time == 0 && p.vesting
                    is None
            }),
            r is Ok ==> final(self).total_fees@ == old(self).total_fees@ + old(self).platform_fee@,
            r is Ok ==> final(self).fee_balance@ == old(self).fee_balance@ + old(self).platform_fee@,
            final(self).admin == old(self).admin && final(self).platform_fee == old(self).platform_fee,
            r matches Err(e) ==> *final(self) == *old(self) && e == (if supply@ == 0 {
                LaunchpadError::InvalidAmount
            } else {
                LaunchpadError::MathOverflow
            }),
    {
        if supply.is_zero() {
            return Err(LaunchpadError::InvalidAmount);
        }
        let new_total = match self.total_fees.checked_add(&self.platform_fee) {
            Some(v) => v,
            None => {
                return Err(LaunchpadError::MathOverflow);
            },
        };
        let new_balance = match self.fee_balance.checked_add(&self.platform_fee) {
            Some(v) => v,
            None => {
                return Err(LaunchpadError::MathOverflow);
            },
        };
        self.total_fees = new_total;
        self.fee_balance = new_balance;
        let id = self.projects.len() as u64 + 1;
        let project = Project {
            founder: caller,
            name,
            symbol,
            supply: *supply,
            status: ProjectStatus::Pending,
            launch_time: 0,
            vesting: None,
        };
        self.projects.push(project);
        Ok(id)
    }

    /// Whether launching project `id` succeeds.
    pub open spec fn spec_launch_ok(pre: LaunchpadState, caller: AccountId, id: u64, bps: nat) -> bool {
        &&& 1 <= id <= pre.projects@.len()
        &&& pre.projects@[id - 1].founder == caller
        &&& pre.projects@[id - 1].status == ProjectStatus::Pending
        &&& pre.projects@[id - 1].supply@ * bps < amount_limit()
    }

    /// The error of a rejected launch, in the order the checks are made.
    pub open spec fn spec_launch_err(pre: LaunchpadState, caller: AccountId, id: u64) -> LaunchpadError {
        if !(1 <= id <= pre.projects@.len()) {
            LaunchpadError::ProjectNotFound
        } else if pre.projects@[id - 1].founder != caller {
            LaunchpadError::NotAuthorized
        } else if pre.projects@[id - 1].status != ProjectStatus::Pending {
            LaunchpadError::AlreadyLaunched
        } else {
            LaunchpadError::MathOverflow
        }
    }

    /// Launch a pending project: allocate `supply * founder_allocation_bps /
    /// 10000` tokens to the founder under a vesting schedule whose cliff lies
    /// one year and whose end two years after `now`, and mark the project
    /// `Launched`. Founder only.
    pub fn launch_token(
        &mut self,
        caller: AccountId,
        project_id: u64,
        founder_allocation_bps: &Amount,
        now: u64,
    ) -> (r: Result<(), LaunchpadError>)
        requires
            old(self).wf(),
            now + DEFAULT_VESTING_MS <= u64::MAX,
        ensures
            final(self).wf(),
            r is Ok <==> Self::spec_launch_ok(*old(self), caller, project_id, founder_allocation_bps@),
            r is Ok ==> ({
                let p0 = old(self).projects@[project_id - 1];
                let p = final(self).projects@[project_id - 1];
                p.founder == p0.founder && p.name == p0.name && p.symbol == p0.symbol && p.supply
                    == p0.supply && p.status == ProjectStatus::Launched && p.launch_time == now
                    && (p.vesting matches Some(v) && v.founder == caller && v.total@ == p0.supply@
                    * founder_allocation_bps@ / 10000 && v.claimed@ == 0 && v.cliff_time == now
                    + DEFAULT_CLIFF_MS && v.end_time == now + DEFAULT_VESTING_MS)
            }),
            r is Ok ==> final(self).projects@.len() == old(self).projects@.len() && (forall|i: int|
                0 <= i < old(self).projects@.len() && i != project_id - 1
                    ==> #[trigger] final(self).projects@[i] == old(self).projects@[i]),
            final(self).admin == old(self).admin && final(self).platform_fee == old(self).platform_fee && final(self).total_fees == old(self).total_fees && final(self).fee_balance == old(self).fee_balance,
            r matches Err(e) ==> *final(self) == *old(self) && e == Self::spec_launch_err(
                *old(self),
                caller,
                project_id,
            ),
    {
        if project_id == 0 || project_id > self.projects.len() as u64 {
            return Err(LaunchpadError::ProjectNotFound);
        }
        let index = (project_id - 1) as usize;
        if !(self.projects[index].founder == caller) {
            return Err(LaunchpadError::NotAuthorized);
        }
        if self.projects[index].status != ProjectStatus::Pending {
            return Err(LaunchpadError::AlreadyLaunched);
        }
        let supply = self.projects[index].supply;
        let allocated = match supply.checked_mul(founder_allocation_bps) {
            Some(v) => v,
            None => {
                return Err(LaunchpadError::MathOverflow);
            },
        };
        let bps = Amount::from_u64(10000);
        let founder_tokens = match allocated.checked_div(&bps) {
            Some(v) => v,
            None => {
                return Err(LaunchpadError::MathOverflow);
            },
        };
        let record = VestingRecord {
            founder: caller,
            total: founder_tokens,
            claimed: Amount::from_u64(0),
            cliff_time: now + DEFAULT_CLIFF_MS,
            end_time: now + DEFAULT_VESTING_MS,
        };
        let founder = self.projects[index].founder;
        let name = self.projects[index].name.clone();
        let symbol = self.projects[index].symbol.clone();
        let updated = Project {
            founder,
            name,
            symbol,
            supply,
            status: ProjectStatus::Launched,
            launch_time: now,
            vesting: Some(record),
        };
        self.projects.set(index, updated);
        Ok(())
    }

    /// Whether claiming on project `id` at time `now` succeeds.
    pub open spec fn spec_claim_ok(pre: LaunchpadState, caller: AccountId, id: u64, now: u64) -> bool {
        &&& pre.spec_vesting(id) matches Some(v)
        &&& pre.spec_vesting(id) matches Some(v) ==> {
            &&& v.founder == caller
            &&& now >= v.cliff_time
            &&& (now < v.end_time ==> (v.total@ as int) * (now - v.cliff_time) < amount_limit())
            &&& spec_vested(v, now) - v.claimed@ != 0
        }
    }

    /// The error of a rejected claim, in the order the checks are made.
    pub open spec fn spec_claim_err(pre: LaunchpadState, caller: AccountId, id: u64, now: u64) -> LaunchpadError {
        match pre.spec_vesting(id) {
            None => LaunchpadError::ProjectNotFound,
            Some(v) => {
                if v.founder != caller {
                    LaunchpadError::NotAuthorized
                } else if now < v.cliff_time {
                    LaunchpadError::VestingNotReady
                } else if now < v.end_time && (v.total@ as int) * (now - v.cliff_time)
                    >= amount_limit() {
                    LaunchpadError::MathOverflow
                } else {
                    LaunchpadError::AlreadyClaimed
                }
            },
        }
    }

    /// Claim the tokens vested so far: nothing before the cliff, everything
    /// at or past the end, the linear interpolation in between, minus what
    /// was claimed before. Founder only. `Ok` carries the claimable amount
    /// now added to `claimed`; the token transfer itself is out of scope
    /// here.
    pub fn claim_vested(&mut self, caller: AccountId, project_id: u64, now: u64) -> (r: Result<
        Amount,
        LaunchpadError,
    >)
        requires
            old(self).wf(),
            (match old(self).spec_vesting(project_id) {
                Some(v) => now >= v.cliff_time ==> v.claimed@ <= spec_vested(v, now),
                None => true,
            }),
        ensures
            final(self).wf(),
            r is Ok <==> Self::spec_claim_ok(*old(self), caller, project_id, now),
            r matches Ok(claimable) ==> (old(self).spec_vesting(project_id) matches Some(v)
                && claimable@ == spec_vested(v, now) - v.claimed@),
            r is Ok ==> (old(self).spec_vesting(project_id) matches Some(v) && final(self).spec_vesting(project_id) matches Some(w) && w.founder == v.founder && w.total
                == v.total && w.cliff_time == v.cliff_time && w.end_time == v.end_time && w.claimed@
                == spec_vested(v, now)),
            r is Ok ==> ({
                let p0 = old(self).projects@[project_id - 1];
                let p = final(self).projects@[project_id - 1];
                p.founder == p0.founder && p.name == p0.name && p.symbol == p0.symbol && p.supply
                    == p0.supply && p.status == p0.status && p.launch_time == p0.launch_time
            }),
            r is Ok ==> final(self).projects@.len() == old(self).projects@.len() && (forall|i: int|
                0 <= i < old(self).projects@.len() && i != project_id - 1
                    ==> #[trigger] final(self).projects@[i] == old(self).projects@[i]),
            final(self).admin == old(self).admin && final(self).platform_fee == old(self).platform_fee && final(self).total_fees == old(self).total_fees && final(self).fee_balance == old(self).fee_balance,
            r matches Err(e) ==> *final(self) == *old(self) && e == Self::spec_claim_err(
                *old(self),
                caller,
                project_id,
                now,
            ),
    {
        if project_id == 0 || project_id > self.projects.len() as u64 {
            return Err(LaunchpadError::ProjectNotFound);
        }
        let index = (project_id - 1) as usize;
        let record = match self.projects[index].vesting {
            Some(v) => v,
            None => {
                return Err(LaunchpadError::ProjectNotFound);
            },
        };
        if !(record.founder == caller) {
            return Err(LaunchpadError::NotAuthorized);
        }
        if now < record.cliff_time {
            return Err(LaunchpadError::VestingNotReady);
        }
        let vested: Amount;
        if now >= record.end_time {
            vested = record.total;
        } else {
            let elapsed = Amount::from_u64(now - record.cliff_time);
            let duration = Amount::from_u64(record.end_time - record.cliff_time);
            let scaled = match record.total.checked_mul(&elapsed) {
                Some(v) => v,
                None => {
                    return Err(LaunchpadError::MathOverflow);
                },
            };
            vested = match scaled.checked_div(&duration) {
                Some(v) => v,
                None => {
                    return Err(LaunchpadError::MathOverflow);
                },
            };
        }
        let claimable = match vested.checked_sub(&record.claimed) {
            Some(v) => v,
            None => {
                return Err(LaunchpadError::AlreadyClaimed);
            },
        };
        if claimable.is_zero() {
            return Err(LaunchpadError::AlreadyClaimed);
        }
        proof {
            vested.lemma_bound();
        }
        let new_claimed = match record.claimed.checked_add(&claimable) {
            Some(v) => v,
            None => {
                return Err(LaunchpadError::AlreadyClaimed);
            },
        };
        proof {
            lemma_vested_le_total(record, now);
        }
        let updated_record = VestingRecord { claimed: new_claimed, ..record };
        let founder = self.projects[index].founder;
        let supply = self.projects[index].supply;
        let status = self.projects[index].status;
        let launch_time = self.projects[index].launch_time;
        let name = self.projects[index].name.clone();
        let symbol = self.projects[index].symbol.clone();
        let updated = Project {
            founder,
            name,
            symbol,
            supply,
            status,
            launch_time,
            vesting: Some(updated_record),
        };
        self.projects.set(index, updated);
        Ok(claimable)
    }

    /// Sweep `amount` motes of accumulated fees to `recipient`. Admin only;
    /// the fee purse must cover the amount.
    pub fn collect_fees(&mut self, caller: AccountId, recipient: AccountId, amount: &Amount) -> (r:
        Result<(), LaunchpadError>)
        ensures
            r is Ok <==> (caller == old(self).admin && amount@ <= old(self).fee_balance@),
            r is Ok ==> final(self).fee_balance@ == old(self).fee_balance@ - amount@,
            r is Ok ==> final(self).admin == old(self).admin && final(self).platform_fee == old(self).platform_fee && final(self).total_fees == old(self).total_fees && final(self).projects == old(self).projects,
            r matches Err(e) ==> *final(self) == *old(self) && e == (if caller != old(self).admin {
                LaunchpadError::NotAuthorized
            } else {
                LaunchpadError::InsufficientPayment
            }),
    {
        let _ = recipient;
        if !(caller == self.admin) {
            return Err(LaunchpadError::NotAuthorized);
        }
        let new_balance = match self.fee_balance.checked_sub(amount) {
            Some(v) => v,
            None => {
                return Err(LaunchpadError::InsufficientPayment);
            },
        };
        self.fee_balance = new_balance;
        Ok(())
    }

    /// The project stored under `project_id`.
    pub fn get_project(&self, project_id: u64) -> (r: Result<&Project, LaunchpadError>)
        ensures
            r is Ok <==> 1 <= project_id <= self.projects@.len(),
            r matches Ok(p) ==> *p == self.projects@[project_id - 1],
            r matches Err(e) ==> e == LaunchpadError::ProjectNotFound,
    {
        if project_id == 0 || project_id > self.projects.len() as u64 {
            return Err(LaunchpadError::ProjectNotFound);
        }
        Ok(&self.projects[(project_id - 1) as usize])
    }

    /// The vesting record of `project_id`; a project that was never launched
    /// has none.
    pub fn get_vesting(&self, project_id: u64) -> (r: Result<VestingRecord, LaunchpadError>)
        ensures
            r is Ok <==> self.spec_vesting(project_id) is Some,
            r matches Ok(v) ==> Some(v) == self.spec_vesting(project_id),
            r matches Err(e) ==> e == LaunchpadError::ProjectNotFound,
    {
        if project_id == 0 || project_id > self.projects.len() as u64 {
            return Err(LaunchpadError::ProjectNotFound);
        }
        match self.projects[(project_id - 1) as usize].vesting {
            Some(v) => Ok(v),
            None => Err(LaunchpadError::ProjectNotFound),
        }
    }

    /// Change the platform fee charged per project. Admin only.
    pub fn set_platform_fee(&mut self, caller: AccountId, fee: Amount) -> (r: Result<
        (),
        LaunchpadError,
    >)
        ensures
            r is Ok <==> caller == old(self).admin,
            r is Ok ==> final(self).platform_fee == fee,
            r is Ok ==> final(self).admin == old(self).admin && final(self).total_fees == old(self).total_fees && final(self).fee_balance == old(self).fee_balance && final(self).projects == old(self).projects,
            r matches Err(e) ==> *final(self) == *old(self) && e == LaunchpadError::NotAuthorized,
    {
        if !(caller == self.admin) {
            return Err(LaunchpadError::NotAuthorized);
        }
        self.platform_fee = fee;
        Ok(())
    }
}

} // verus!
