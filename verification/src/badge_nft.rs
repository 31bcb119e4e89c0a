//! Soulbound course badges. A registry (the admin) mints one badge per
//! course to a learner; badges are never transferred or removed.

use vstd::prelude::*;
use crate::access::{admin_check_spec, check_admin, install_admin, opt_view, AdminCheck};
use crate::address::Address;
use crate::table::AddressTable;

verus! {

/// A badge: the course it certifies and the ledger time it was minted at.
#[derive(Debug, Clone, Copy, PartialEq, Eq, Structural)]
pub struct Badge {
    pub course_id: u32,
    pub minted_at: u64,
}

/// The event published for each minted badge.
pub struct BadgeMinted {
    pub learner: Address,
    pub course_id: u32,
    pub minted_at: u64,
}

/// Why a badge operation was refused.
#[derive(Debug, Clone, Copy, PartialEq, Eq, Structural)]
pub enum BadgeError {
    AlreadyInitialized,
    NotInitialized,
    Unauthorized,
    DuplicateBadge,
}

/// The text with which the contract reports each refusal.
pub open spec fn badge_error_text(e: BadgeError) -> Seq<char> {
    match e {
        BadgeError::AlreadyInitialized => "Already initialized"@,
        BadgeError::NotInitialized => "Contract not initialized"@,
        BadgeError::Unauthorized => "Unauthorized: Caller is not the authorized registry"@,
        BadgeError::DuplicateBadge => "Badge for this course already exists"@,
    }
}

impl BadgeError {
    /// The text with which the contract reports this refusal.
    pub fn message(&self) -> (m: &'static str)
        ensures
            m@ == badge_error_text(*self),
    {
        match self {
            BadgeError::AlreadyInitialized => "Already initialized",
            BadgeError::NotInitialized => "Contract not initialized",
            BadgeError::Unauthorized => "Unauthorized: Caller is not the authorized registry",
            BadgeError::DuplicateBadge => "Badge for this course already exists",
        }
    }
}

/// Whether `caller` is the registry stored in the slot `stored`, and why not.
pub open spec fn registry_check(stored: Option<Seq<u8>>, caller: Seq<u8>) -> Result<(), BadgeError> {
    match admin_check_spec(stored, caller) {
        AdminCheck::Missing => Err(BadgeError::NotInitialized),
        AdminCheck::Mismatch => Err(BadgeError::Unauthorized),
        AdminCheck::Granted => Ok(()),
    }
}

/// Whether `caller` is the registry stored in `stored`, and why not.
pub fn authorize_registry(stored: &Option<Address>, caller: &Address) -> (r: Result<(), BadgeError>)
    ensures
        r == registry_check(opt_view(*stored), caller@),
{
    match check_admin(stored, caller) {
        AdminCheck::Missing => Err(BadgeError::NotInitialized),
        AdminCheck::Mismatch => Err(BadgeError::Unauthorized),
        AdminCheck::Granted => Ok(()),
    }
}

/// Some badge in `badges` certifies `course_id`.
pub open spec fn holds_course(badges: Seq<Badge>, course_id: u32) -> bool {
    exists|i: int| 0 <= i < badges.len() && #[trigger] badges[i].course_id == course_id
}

/// No course is certified twice in `badges`.
pub open spec fn courses_distinct(badges: Seq<Badge>) -> bool {
    forall|i: int, j: int|
        0 <= i < badges.len() && 0 <= j < badges.len() && i != j
            ==> #[trigger] badges[i].course_id != #[trigger] badges[j].course_id
}

/// A learner's badge list after minting a badge for `course_id` at `now`.
pub open spec fn record_badge_spec(badges: Seq<Badge>, course_id: u32, now: u64) -> Result<Seq<Badge>, BadgeError> {
    if holds_course(badges, course_id) {
        Err(BadgeError::DuplicateBadge)
    } else {
        Ok(badges.push(Badge { course_id, minted_at: now }))
    }
}

/// Whether some badge in `badges` certifies `course_id`.
pub fn holds_badge(badges: &Vec<Badge>, course_id: u32) -> (r: bool)
    ensures
        r == holds_course(badges@, course_id),
        r <==> exists|i: int| 0 <= i < badges@.len() && #[trigger] badges@[i].course_id == course_id,
{
    let n = badges.len();
    let mut i: usize = 0;
    while i < n
        invariant
            n == badges@.len(),
            i <= n,
            forall|j: int| 0 <= j < i ==> #[trigger] badges@[j].course_id != course_id,
        decreases n - i,
    {
        if badges[i].course_id == course_id {
            return true;
        }
        i += 1;
    }
    false
}

/// Adds a badge for `course_id`, minted at `now`, to a learner's badge list,
/// unless the list already certifies that course.
pub fn record_badge(badges: &mut Vec<Badge>, course_id: u32, now: u64) -> (r: Result<Badge, BadgeError>)
    ensures
        match record_badge_spec(old(badges)@, course_id, now) {
            Ok(list) => r == Ok::<Badge, BadgeError>(Badge { course_id, minted_at: now }) && final(badges)@ == list,
            Err(e) => r == Err::<Badge, BadgeError>(e) && final(badges)@ == old(badges)@,
        },
        (forall|i: int| 0 <= i < old(badges)@.len() ==> #[trigger] old(badges)@[i].course_id != course_id)
            ==> r == Ok::<Badge, BadgeError>(Badge { course_id, minted_at: now })
                && final(badges)@ == old(badges)@.push(Badge { course_id, minted_at: now }),
        (exists|i: int| 0 <= i < old(badges)@.len() && #[trigger] old(badges)@[i].course_id == course_id)
            ==> r == Err::<Badge, BadgeError>(BadgeError::DuplicateBadge) && final(badges)@ == old(badges)@,
{
    if holds_badge(badges, course_id) {
        return Err(BadgeError::DuplicateBadge);
    }
    let badge = Badge { course_id, minted_at: now };
    badges.push(badge);
    Ok(badge)
}

fn copy_badges(badges: &Vec<Badge>) -> (r: Vec<Badge>)
    ensures
        r@ == badges@,
{
    let n = badges.len();
    let mut r: Vec<Badge> = Vec::new();
    let mut i: usize = 0;
    while i < n
        invariant
            n == badges@.len(),
            i <= n,
            r@ =~= badges@.take(i as int),
        decreases n - i,
    {
        r.push(badges[i]);
        i += 1;
    }
    assert(badges@.take(n as int) =~= badges@);
    r
}

/// The contract's storage: the registry allowed to mint, and each learner's badges.
pub struct BadgeNFTView {
    pub admin: Option<Seq<u8>>,
    pub badges: Map<Seq<u8>, Seq<Badge>>,
}

impl BadgeNFTView {
    /// A learner's badges; none where nothing is stored for the learner.
    pub open spec fn badges_of(self, learner: Seq<u8>) -> Seq<Badge> {
        if self.badges.contains_key(learner) {
            self.badges[learner]
        } else {
            Seq::empty()
        }
    }

    /// Whether the learner holds a badge for the course.
    pub open spec fn has_badge(self, learner: Seq<u8>, course_id: u32) -> bool {
        holds_course(self.badges_of(learner), course_id)
    }

    /// The storage after installing `admin` as the registry.
    pub open spec fn initialize(self, admin: Seq<u8>) -> Result<Self, BadgeError> {
        if self.admin is Some {
            Err(BadgeError::AlreadyInitialized)
        } else {
            Ok(BadgeNFTView { admin: Some(admin), badges: self.badges })
        }
    }

    /// The storage after `caller` mints a badge for `course_id` to `learner` at time `now`.
    pub open spec fn mint_badge(self, caller: Seq<u8>, learner: Seq<u8>, course_id: u32, now: u64) -> Result<Self, BadgeError> {
        match registry_check(self.admin, caller) {
            Err(e) => Err(e),
            Ok(_) => match record_badge_spec(self.badges_of(learner), course_id, now) {
                Ok(list) => Ok(BadgeNFTView { admin: self.admin, badges: self.badges.insert(learner, list) }),
                Err(e) => Err(e),
            },
        }
    }
}

/// The registry is installed once: after a successful `initialize`, every
/// further `initialize` is refused with `AlreadyInitialized`.
pub proof fn law_initialize_once(s: BadgeNFTView, t: BadgeNFTView, admin: Seq<u8>, other: Seq<u8>)
    requires
        s.initialize(admin) == Ok::<BadgeNFTView, BadgeError>(t),
    ensures
        t.initialize(other) == Err::<BadgeNFTView, BadgeError>(BadgeError::AlreadyInitialized),
        t.admin == Some(admin),
        t.badges == s.badges,
{
}

/// Only the registry mints: a mint that succeeds was asked for by the
/// installed registry.
pub proof fn law_only_registry_mints(s: BadgeNFTView, caller: Seq<u8>, learner: Seq<u8>, course_id: u32, now: u64)
    requires
        s.mint_badge(caller, learner, course_id, now) is Ok,
    ensures
        s.admin == Some(caller),
{
}

/// A successful mint appends exactly one badge, for the course and time
/// asked, to the learner's list, keeps every earlier badge, and from then on
/// the learner holds that course's badge.
pub proof fn law_mint_appends_badge(s: BadgeNFTView, t: BadgeNFTView, caller: Seq<u8>, learner: Seq<u8>, course_id: u32, now: u64)
    requires
        s.mint_badge(caller, learner, course_id, now) == Ok::<BadgeNFTView, BadgeError>(t),
    ensures
        t.badges_of(learner) == s.badges_of(learner).push(Badge { course_id, minted_at: now }),
        t.badges_of(learner).len() == s.badges_of(learner).len() + 1,
        t.has_badge(learner, course_id),
        !s.has_badge(learner, course_id),
{
    let l = t.badges_of(learner);
    assert(l[l.len() - 1].course_id == course_id);
}

/// A mint changes nothing but the learner's own badge list.
pub proof fn law_mint_is_local(s: BadgeNFTView, t: BadgeNFTView, caller: Seq<u8>, learner: Seq<u8>, course_id: u32, now: u64, other: Seq<u8>)
    requires
        s.mint_badge(caller, learner, course_id, now) == Ok::<BadgeNFTView, BadgeError>(t),
        other != learner,
    ensures
        t.admin == s.admin,
        t.badges_of(other) == s.badges_of(other),
{
}

/// A learner never gets two badges for one course: once minted, every
/// further mint of that course to that learner by the registry is refused
/// with `DuplicateBadge`.
pub proof fn law_no_duplicate_badge(s: BadgeNFTView, t: BadgeNFTView, caller: Seq<u8>, learner: Seq<u8>, course_id: u32, now: u64, later: u64)
    requires
        s.mint_badge(caller, learner, course_id, now) == Ok::<BadgeNFTView, BadgeError>(t),
    ensures
        t.mint_badge(caller, learner, course_id, later) == Err::<BadgeNFTView, BadgeError>(BadgeError::DuplicateBadge),
{
    law_mint_appends_badge(s, t, caller, learner, course_id, now);
}

/// Every learner's badges certify distinct courses, in every state that
/// minting reaches from such a state.
pub proof fn law_mint_keeps_courses_distinct(s: BadgeNFTView, t: BadgeNFTView, caller: Seq<u8>, learner: Seq<u8>, course_id: u32, now: u64)
    requires
        forall|l: Seq<u8>| courses_distinct(#[trigger] s.badges_of(l)),
        s.mint_badge(caller, learner, course_id, now) == Ok::<BadgeNFTView, BadgeError>(t),
    ensures
        forall|l: Seq<u8>| courses_distinct(#[trigger] t.badges_of(l)),
{
    assert forall|l: Seq<u8>| courses_distinct(#[trigger] t.badges_of(l)) by {
        if l != learner {
            law_mint_is_local(s, t, caller, learner, course_id, now, l);
        } else {
            let old_list = s.badges_of(l);
            let new_list = t.badges_of(l);
            assert(courses_distinct(old_list));
            assert(new_list == old_list.push(Badge { course_id, minted_at: now }));
            assert forall|i: int, j: int|
                0 <= i < new_list.len() && 0 <= j < new_list.len() && i != j
                implies #[trigger] new_list[i].course_id != #[trigger] new_list[j].course_id by {
                if i < old_list.len() && j < old_list.len() {
                    assert(new_list[i] == old_list[i] && new_list[j] == old_list[j]);
                } else if i < old_list.len() {
                    assert(new_list[i] == old_list[i]);
                    assert(!holds_course(old_list, course_id));
                } else {
                    assert(new_list[j] == old_list[j]);
                    assert(!holds_course(old_list, course_id));
                }
            }
        }
    }
}

/// A fresh contract holds no badges, so its lists certify distinct courses.
pub proof fn law_fresh_courses_distinct(s: BadgeNFTView)
    requires
        s.badges == Map::<Seq<u8>, Seq<Badge>>::empty(),
    ensures
        forall|l: Seq<u8>| courses_distinct(#[trigger] s.badges_of(l)),
{
}

/// A learner's badges are what storage holds for the learner, and none when
/// storage holds nothing for the learner.
pub proof fn law_badges_of_reads_storage(s: BadgeNFTView, learner: Seq<u8>)
    ensures
        s.badges.contains_key(learner) ==> s.badges_of(learner) == s.badges[learner],
        !s.badges.contains_key(learner) ==> s.badges_of(learner) == Seq::<Badge>::empty(),
{
}

/// A learner holds a course's badge exactly when some badge anywhere in the
/// learner's list, not only the latest, certifies that course.
pub proof fn law_has_badge_scans_all(s: BadgeNFTView, learner: Seq<u8>, course_id: u32)
    ensures
        s.has_badge(learner, course_id) <==> exists|i: int|
            0 <= i < s.badges_of(learner).len() && #[trigger] s.badges_of(learner)[i].course_id == course_id,
{
}

/// Minting never takes a badge away: whatever any learner held before a
/// successful mint, it still holds after it.
pub proof fn law_mint_keeps_held_badges(s: BadgeNFTView, t: BadgeNFTView, caller: Seq<u8>, learner: Seq<u8>, course_id: u32, now: u64, who: Seq<u8>, held: u32)
    requires
        s.mint_badge(caller, learner, course_id, now) == Ok::<BadgeNFTView, BadgeError>(t),
        s.has_badge(who, held),
    ensures
        t.has_badge(who, held),
{
    law_has_badge_scans_all(s, who, held);
    law_has_badge_scans_all(t, who, held);
    let old_list = s.badges_of(who);
    let i = choose|i: int| 0 <= i < old_list.len() && #[trigger] old_list[i].course_id == held;
    if who == learner {
        assert(t.badges_of(who)[i] == old_list[i]);
    } else {
        law_mint_is_local(s, t, caller, learner, course_id, now, who);
        assert(t.badges_of(who)[i] == old_list[i]);
    }
}

/// What a mint gives, for every state and request: refused with
/// `NotInitialized` when no registry is installed, with `Unauthorized` when
/// the caller is not the registry, with `DuplicateBadge` when the learner
/// already holds a badge for the course; otherwise it succeeds, appending
/// the badge (course, time `now`) to the learner's list and changing
/// nothing else.
pub proof fn law_mint_outcome(s: BadgeNFTView, caller: Seq<u8>, learner: Seq<u8>, course_id: u32, now: u64)
    ensures
        s.admin is None ==> s.mint_badge(caller, learner, course_id, now) == Err::<BadgeNFTView, BadgeError>(BadgeError::NotInitialized),
        (s.admin is Some && s.admin != Some(caller)) ==> s.mint_badge(caller, learner, course_id, now) == Err::<BadgeNFTView, BadgeError>(BadgeError::Unauthorized),
        (s.admin == Some(caller) && exists|i: int| 0 <= i < s.badges_of(learner).len() && #[trigger] s.badges_of(learner)[i].course_id == course_id)
            ==> s.mint_badge(caller, learner, course_id, now) == Err::<BadgeNFTView, BadgeError>(BadgeError::DuplicateBadge),
        (s.admin == Some(caller) && forall|i: int| 0 <= i < s.badges_of(learner).len() ==> #[trigger] s.badges_of(learner)[i].course_id != course_id)
            ==> s.mint_badge(caller, learner, course_id, now) == Ok::<BadgeNFTView, BadgeError>(BadgeNFTView {
                admin: s.admin,
                badges: s.badges.insert(learner, s.badges_of(learner).push(Badge { course_id, minted_at: now })),
            }),
{
    if s.admin == Some(caller) {
        if forall|i: int| 0 <= i < s.badges_of(learner).len() ==> #[trigger] s.badges_of(learner)[i].course_id != course_id {
            assert(!holds_course(s.badges_of(learner), course_id));
        }
    }
}

/// Adding a badge to a learner's list succeeds exactly when no badge in the
/// list certifies the course, and then appends just that badge.
pub proof fn law_record_badge_outcome(badges: Seq<Badge>, course_id: u32, now: u64)
    ensures
        (forall|i: int| 0 <= i < badges.len() ==> #[trigger] badges[i].course_id != course_id)
            ==> record_badge_spec(badges, course_id, now) == Ok::<Seq<Badge>, BadgeError>(badges.push(Badge { course_id, minted_at: now })),
        (exists|i: int| 0 <= i < badges.len() && #[trigger] badges[i].course_id == course_id)
            ==> record_badge_spec(badges, course_id, now) == Err::<Seq<Badge>, BadgeError>(BadgeError::DuplicateBadge),
{
    if forall|i: int| 0 <= i < badges.len() ==> #[trigger] badges[i].course_id != course_id {
        assert(!holds_course(badges, course_id));
    }
}

/// Installing the registry succeeds exactly on a contract without one, and
/// then stores that registry and leaves the badges as they were.
pub proof fn law_initialize_outcome(s: BadgeNFTView, admin: Seq<u8>)
    ensures
        s.admin is None ==> s.initialize(admin) == Ok::<BadgeNFTView, BadgeError>(BadgeNFTView { admin: Some(admin), badges: s.badges }),
        s.admin is Some ==> s.initialize(admin) == Err::<BadgeNFTView, BadgeError>(BadgeError::AlreadyInitialized),
{
}

/// The badge contract's state.
pub struct BadgeNFT {
    admin: Option<Address>,
    badges: AddressTable<Vec<Badge>>,
}

impl View for BadgeNFT {
    type V = BadgeNFTView;

    closed spec fn view(&self) -> BadgeNFTView {
        BadgeNFTView { admin: opt_view(self.admin), badges: self.badges@ }
    }
}

impl BadgeNFT {
    /// The state's internal invariant: one badge list per learner, and each
    /// list short enough for its length to be a `u32`.
    pub closed spec fn wf(&self) -> bool {
        &&& self.badges.wf()
        &&& forall|k: Seq<u8>| #[trigger] self.badges@.contains_key(k) ==> self.badges@[k].len() <= u32::MAX
    }

    /// A freshly deployed contract: no registry, no badges.
    pub fn new() -> (c: Self)
        ensures
            c.wf(),
            c@.admin is None,
            c@.badges == Map::<Seq<u8>, Seq<Badge>>::empty(),
    {
        BadgeNFT { admin: None, badges: AddressTable::new() }
    }

    /// Installs `admin` as the registry; refused once a registry is installed.
    pub fn initialize(&mut self, admin: Address) -> (r: Result<(), BadgeError>)
        requires
            old(self).wf(),
        ensures
            final(self).wf(),
            old(self)@.initialize(admin@) == (match r {
                Ok(_) => Ok(final(self)@),
                Err(e) => Err::<BadgeNFTView, BadgeError>(e),
            }),
            r is Err ==> final(self)@ == old(self)@,
    {
        if install_admin(&mut self.admin, admin) {
            Ok(())
        } else {
            Err(BadgeError::AlreadyInitialized)
        }
    }

    /// Mints a badge for `course_id` to `learner`, on behalf of `caller`,
    /// stamped with the ledger time `now`. Only the registry may mint, and
    /// a learner gets at most one badge per course.
    pub fn mint_badge(&mut self, caller: &Address, learner: Address, course_id: u32, now: u64) -> (r: Result<BadgeMinted, BadgeError>)
        requires
            old(self).wf(),
            old(self)@.badges_of(learner@).len() < u32::MAX,
        ensures
            final(self).wf(),
            old(self)@.mint_badge(caller@, learner@, course_id, now) == (match r {
                Ok(_) => Ok(final(self)@),
                Err(e) => Err::<BadgeNFTView, BadgeError>(e),
            }),
            r is Err ==> final(self)@ == old(self)@,
            r matches Ok(ev) ==> ev.learner@ == learner@ && ev.course_id == course_id && ev.minted_at == now,
    {
        if let Err(e) = authorize_registry(&self.admin, caller) {
            return Err(e);
        }
        let mut list: Vec<Badge> = match self.badges.get(&learner) {
            Some(b) => copy_badges(b),
            None => Vec::new(),
        };
        assert(list@ == old(self)@.badges_of(learner@));
        match record_badge(&mut list, course_id, now) {
            Err(e) => Err(e),
            Ok(badge) => {
                let event = BadgeMinted { learner: learner.clone(), course_id, minted_at: badge.minted_at };
                let ghost new_list = list@;
                self.badges.insert(learner, list);
                assert(self@.badges =~= old(self)@.badges.insert(learner@, new_list));
                Ok(event)
            },
        }
    }

    /// All badges of `learner`, oldest first; none where the learner has none.
    pub fn get_badges(&self, learner: &Address) -> (r: Vec<Badge>)
        requires
            self.wf(),
        ensures
            r@ == self@.badges_of(learner@),
    {
        match self.badges.get(learner) {
            Some(b) => copy_badges(b),
            None => Vec::new(),
        }
    }

    /// How many badges `learner` holds.
    pub fn get_badge_count(&self, learner: &Address) -> (r: u32)
        requires
            self.wf(),
        ensures
            r == self@.badges_of(learner@).len(),
            self@.badges.contains_key(learner@) ==> r == self@.badges[learner@].len(),
            !self@.badges.contains_key(learner@) ==> r == 0,
    {
        let badges = self.get_badges(learner);
        badges.len() as u32
    }

    /// Whether `learner` holds a badge for `course_id`.
    pub fn has_badge(&self, learner: &Address, course_id: u32) -> (r: bool)
        requires
            self.wf(),
        ensures
            r == self@.has_badge(learner@, course_id),
    {
        let badges = self.get_badges(learner);
        holds_badge(&badges, course_id)
    }
}

} // verus!
