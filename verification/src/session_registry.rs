//! Session registry, handoff state machine and isolation policy of the
//! session service.
//!
//! At most one session is active; only the active session receives input and
//! may take focus, and only on surfaces it owns. A handoff between sessions
//! runs four ordered stages: input routes detach, the outgoing focus is torn
//! down, the seat moves to the incoming session, and the incoming session is
//! activated.
use vstd::prelude::*;

verus! {

pub const MAX_SESSIONS: usize = 4;
pub const MAX_MEMBERS: usize = 16;
pub const BOOTSTRAP_SESSION_ID: u32 = 1;
pub const PRIMARY_SEAT: u32 = 0;
/// Sentinel used on the wire for "no seat bound".
pub const NO_SEAT: u32 = 0xffff_ffff;
pub const HANDOFF_STAGE_COUNT: usize = 4;

#[derive(Clone, Copy, Debug, PartialEq, Eq, Structural)]
pub enum SessionKind {
    Graphical,
    Operator,
}

#[derive(Clone, Copy, Debug, PartialEq, Eq, Structural)]
pub enum SwitchError {
    UnknownTarget,
    AlreadyActive,
}

#[derive(Clone, Copy, Debug, PartialEq, Eq, Structural)]
pub enum FocusError {
    UnknownSession,
    InactiveSession,
    ForeignSurface,
}

#[derive(Clone, Copy, Debug, PartialEq, Eq, Structural)]
pub enum RegisterError {
    CapacityExceeded,
    IdInUse,
    SeatInUse,
}

/// Ordered stages applied by a session handoff.
#[derive(Clone, Copy, Debug, PartialEq, Eq, Structural)]
pub enum HandoffStage {
    /// Kernel input route detached from the outgoing session.
    InputDetach,
    /// Outgoing session focus torn down (focused surface cleared).
    FocusTeardown,
    /// Seat ownership moved to the incoming session.
    SeatTransfer,
    /// Incoming session becomes the active routing target.
    Activation,
}

impl HandoffStage {
    /// Position of the stage in the handoff order.
    pub open spec fn spec_index(self) -> int {
        match self {
            HandoffStage::InputDetach => 0,
            HandoffStage::FocusTeardown => 1,
            HandoffStage::SeatTransfer => 2,
            HandoffStage::Activation => 3,
        }
    }
}

#[derive(Clone, Copy, Debug, PartialEq, Eq)]
pub struct HandoffRecord {
    pub from: u32,
    pub to: u32,
    pub transferred_seat: Option<u32>,
    pub completed: [bool; 4],
}

impl HandoffRecord {
    fn new(from: u32, to: u32, transferred_seat: Option<u32>) -> (r: Self)
        ensures
            r.from == from,
            r.to == to,
            r.transferred_seat == transferred_seat,
            r.completed == [false, false, false, false],
    {
        HandoffRecord { from, to, transferred_seat, completed: [false, false, false, false] }
    }

    /// Whether the given stage has been applied.
    pub fn stage_done(&self, stage: HandoffStage) -> (b: bool)
        ensures
            b == self.completed[stage.spec_index()],
    {
        match stage {
            HandoffStage::InputDetach => self.completed[0],
            HandoffStage::FocusTeardown => self.completed[1],
            HandoffStage::SeatTransfer => self.completed[2],
            HandoffStage::Activation => self.completed[3],
        }
    }
}

#[derive(Clone, Copy, Debug, PartialEq, Eq)]
pub struct SessionSnapshot {
    pub id: u32,
    pub seat: Option<u32>,
    pub kind: SessionKind,
    pub active: bool,
    pub focused_surface: u32,
    pub surface_count_hint: u32,
    pub member_count: usize,
}

/// Input-routing verdict produced by the isolation policy each turn.
#[derive(Clone, Copy, Debug, PartialEq, Eq, Structural)]
pub enum InputDecision {
    /// Forward kernel input toward the desktop route of this session.
    RouteToDesktop(u32),
    /// Drop: session is registered but not active (isolation).
    DropInactive(u32),
    /// Drop: a handoff is mid-teardown; neither side may receive input.
    DropHandoff,
    /// Drop: no sessions registered at all.
    DropNoSession,
}

/// Abstract state of one registered session.
pub struct SessionView {
    pub id: u32,
    pub seat: Option<u32>,
    pub kind: SessionKind,
    pub focused_surface: u32,
    pub surface_count_hint: u32,
    /// Surfaces that belong to the session, in the order they joined it.
    pub members: Seq<u32>,
}

/// Abstract state of the registry: four slots, the active session id and
/// the handoff in progress, if any.
pub struct RegistryView {
    pub slots: Seq<Option<SessionView>>,
    pub active_id: u32,
    pub handoff_active: bool,
    pub handoff_from: u32,
    pub handoff_to: u32,
}

/// Index of the first occupied slot at or after `i` whose session has id `id`.
pub open spec fn slot_of_from(slots: Seq<Option<SessionView>>, id: u32, i: int) -> Option<int>
    decreases slots.len() - i,
{
    if i < 0 || i >= slots.len() {
        None
    } else if slots[i] is Some && slots[i]->0.id == id {
        Some(i)
    } else {
        slot_of_from(slots, id, i + 1)
    }
}

/// Index of the first occupied slot at or after `i` whose session holds `seat`.
pub open spec fn seat_slot_from(slots: Seq<Option<SessionView>>, seat: u32, i: int) -> Option<int>
    decreases slots.len() - i,
{
    if i < 0 || i >= slots.len() {
        None
    } else if slots[i] is Some && slots[i]->0.seat == Some(seat) {
        Some(i)
    } else {
        seat_slot_from(slots, seat, i + 1)
    }
}

/// Index of the first occupied slot at or after `i` whose session owns `surface`.
pub open spec fn surface_slot_from(slots: Seq<Option<SessionView>>, surface: u32, i: int) -> Option<
    int,
>
    decreases slots.len() - i,
{
    if i < 0 || i >= slots.len() {
        None
    } else if slots[i] is Some && slots[i]->0.members.contains(surface) {
        Some(i)
    } else {
        surface_slot_from(slots, surface, i + 1)
    }
}

/// Index of the first empty slot at or after `i`.
pub open spec fn free_slot_from(slots: Seq<Option<SessionView>>, i: int) -> Option<int>
    decreases slots.len() - i,
{
    if i < 0 || i >= slots.len() {
        None
    } else if slots[i] is None {
        Some(i)
    } else {
        free_slot_from(slots, i + 1)
    }
}

/// Ids of the occupied slots at or after `i`, in slot order.
pub open spec fn ids_from(slots: Seq<Option<SessionView>>, i: int) -> Seq<u32>
    decreases slots.len() - i,
{
    if i < 0 || i >= slots.len() {
        Seq::empty()
    } else if slots[i] is Some {
        seq![slots[i]->0.id] + ids_from(slots, i + 1)
    } else {
        ids_from(slots, i + 1)
    }
}

/// The session view built for a newly registered session.
pub open spec fn new_session(id: u32, seat: Option<u32>, kind: SessionKind) -> SessionView {
    SessionView {
        id,
        seat,
        kind,
        focused_surface: 0,
        surface_count_hint: 0,
        members: Seq::empty(),
    }
}

impl RegistryView {
    /// Slot of the session with id `id`.
    pub open spec fn slot_of(self, id: u32) -> Option<int> {
        slot_of_from(self.slots, id, 0)
    }

    /// The session with id `id`.
    pub open spec fn session(self, id: u32) -> Option<SessionView> {
        match self.slot_of(id) {
            Some(i) => self.slots[i],
            None => None,
        }
    }

    pub open spec fn has(self, id: u32) -> bool {
        self.slot_of(id) is Some
    }

    /// Id of the session that holds `seat`.
    pub open spec fn seat_owner(self, seat: u32) -> Option<u32> {
        match seat_slot_from(self.slots, seat, 0) {
            Some(i) => Some(self.slots[i]->0.id),
            None => None,
        }
    }

    /// Id of the session that owns `surface`.
    pub open spec fn surface_owner(self, surface: u32) -> Option<u32> {
        match surface_slot_from(self.slots, surface, 0) {
            Some(i) => Some(self.slots[i]->0.id),
            None => None,
        }
    }

    /// Ids of all registered sessions, in slot order.
    pub open spec fn ids(self) -> Seq<u32> {
        ids_from(self.slots, 0)
    }

    /// True when `id` is the sole allowed input/focus target.
    pub open spec fn allows(self, id: u32) -> bool {
        !self.handoff_active && id != 0 && id == self.active_id
    }

    /// The smallest positive id not held by a registered session.
    pub open spec fn next_free_id(self) -> u32 {
        choose|k: u32|
            1 <= k && !self.has(k) && forall|j: u32| 1 <= j < k ==> #[trigger] self.has(j)
    }

    /// The registry's structural invariant: four slots, positive unique
    /// ids, unique seats, and every surface owned by at most one session.
    pub open spec fn wf(self) -> bool {
        &&& self.slots.len() == 4
        &&& forall|i: int|
            0 <= i < 4 && #[trigger] self.slots[i] is Some ==> {
                &&& self.slots[i]->0.id != 0
                &&& self.slots[i]->0.members.len() <= 16
                &&& self.slots[i]->0.members.no_duplicates()
                &&& !self.slots[i]->0.members.contains(0)
            }
        &&& forall|i: int, j: int|
            0 <= i < 4 && 0 <= j < 4 && i != j && #[trigger] self.slots[i] is Some
                && #[trigger] self.slots[j] is Some ==> {
                &&& self.slots[i]->0.id != self.slots[j]->0.id
                &&& (self.slots[i]->0.seat is Some ==> self.slots[i]->0.seat
                    != self.slots[j]->0.seat)
                &&& forall|s: u32|
                    self.slots[i]->0.members.contains(s) ==> !self.slots[j]->0.members.contains(
                        s,
                    )
            }
    }

    /// The snapshot reported for a session.
    pub open spec fn snapshot(self, s: SessionView) -> SessionSnapshot {
        SessionSnapshot {
            id: s.id,
            seat: s.seat,
            kind: s.kind,
            active: s.id == self.active_id,
            focused_surface: s.focused_surface,
            surface_count_hint: s.surface_count_hint,
            member_count: s.members.len() as usize,
        }
    }
}

#[derive(Clone, Copy)]
struct SessionEntry {
    id: u32,
    seat: Option<u32>,
    kind: SessionKind,
    focused_surface: u32,
    surface_count_hint: u32,
    members: [u32; 16],
    member_count: usize,
}

impl SessionEntry {
    closed spec fn view(self) -> SessionView {
        SessionView {
            id: self.id,
            seat: self.seat,
            kind: self.kind,
            focused_surface: self.focused_surface,
            surface_count_hint: self.surface_count_hint,
            members: self.members@.subrange(0, self.member_count as int),
        }
    }

    closed spec fn inv(self) -> bool {
        self.member_count <= 16
    }

    fn new(id: u32, seat: Option<u32>, kind: SessionKind) -> (e: Self)
        ensures
            e.inv(),
            e.view() == new_session(id, seat, kind),
    {
        let e = SessionEntry {
            id,
            seat,
            kind,
            focused_surface: 0,
            surface_count_hint: 0,
            members: [0u32; 16],
            member_count: 0,
        };
        assert(e.view().members =~= Seq::<u32>::empty());
        e
    }

    fn owns_surface(&self, surface_id: u32) -> (b: bool)
        requires
            self.inv(),
        ensures
            b == self.view().members.contains(surface_id),
    {
        let mut i: usize = 0;
        while i < self.member_count
            invariant
                self.inv(),
                i <= self.member_count,
                forall|t: int| 0 <= t < i ==> self.members[t] != surface_id,
            decreases self.member_count - i,
        {
            if self.members[i] == surface_id {
                assert(self.view().members[i as int] == surface_id);
                return true;
            }
            i = i + 1;
        }
        false
    }

    fn add_member(&mut self, surface_id: u32)
        requires
            old(self).inv(),
        ensures
            final(self).inv(),
            final(self).view() == (if surface_id == 0 || old(self).view().members.contains(
                surface_id,
            ) || old(self).view().members.len() >= 16 {
                old(self).view()
            } else {
                SessionView { members: old(self).view().members.push(surface_id), ..old(self).view() }
            }),
    {
        if surface_id == 0 || self.owns_surface(surface_id) {
            return;
        }
        if self.member_count < 16 {
            let ghost before = self.view().members;
            self.members[self.member_count] = surface_id;
            self.member_count = self.member_count + 1;
            assert(self.view().members =~= before.push(surface_id));
        }
    }

    fn snapshot(&self, active_id: u32) -> (s: SessionSnapshot)
        requires
            self.inv(),
        ensures
            s == (SessionSnapshot {
                id: self.id,
                seat: self.seat,
                kind: self.kind,
                active: self.id == active_id,
                focused_surface: self.focused_surface,
                surface_count_hint: self.surface_count_hint,
                member_count: self.view().members.len() as usize,
            }),
    {
        SessionSnapshot {
            id: self.id,
            seat: self.seat,
            kind: self.kind,
            active: self.id == active_id,
            focused_surface: self.focused_surface,
            surface_count_hint: self.surface_count_hint,
            member_count: self.member_count,
        }
    }
}

spec fn entry_view(e: Option<SessionEntry>) -> Option<SessionView> {
    match e {
        Some(x) => Some(x.view()),
        None => None,
    }
}

spec fn slots_of(entries: [Option<SessionEntry>; 4]) -> Seq<Option<SessionView>> {
    entries@.map_values(|e: Option<SessionEntry>| entry_view(e))
}

pub struct SessionRegistry {
    entries: [Option<SessionEntry>; 4],
    active_id: u32,
    handoff_active: bool,
    handoff_from: u32,
    handoff_to: u32,
}

impl View for SessionRegistry {
    type V = RegistryView;

    closed spec fn view(&self) -> RegistryView {
        RegistryView {
            slots: slots_of(self.entries),
            active_id: self.active_id,
            handoff_active: self.handoff_active,
            handoff_from: self.handoff_from,
            handoff_to: self.handoff_to,
        }
    }
}

proof fn lemma_slot_of_from_found(slots: Seq<Option<SessionView>>, id: u32, i: int, k: int)
    requires
        0 <= i <= k < slots.len(),
        slots[k] is Some && slots[k]->0.id == id,
        forall|t: int| i <= t < k ==> !(slots[t] is Some && slots[t]->0.id == id),
    ensures
        slot_of_from(slots, id, i) == Some(k),
    decreases k - i,
{
    if i < k {
        lemma_slot_of_from_found(slots, id, i + 1, k);
    }
}

proof fn lemma_slot_of_from_none(slots: Seq<Option<SessionView>>, id: u32, i: int)
    requires
        0 <= i <= slots.len(),
        forall|t: int| i <= t < slots.len() ==> !(slots[t] is Some && slots[t]->0.id == id),
    ensures
        slot_of_from(slots, id, i) is None,
    decreases slots.len() - i,
{
    if i < slots.len() {
        lemma_slot_of_from_none(slots, id, i + 1);
    }
}

/// The slot found for an id holds that id, and no earlier slot does.
proof fn lemma_slot_of_from_spec(slots: Seq<Option<SessionView>>, id: u32, i: int)
    requires
        0 <= i,
    ensures
        slot_of_from(slots, id, i) matches Some(k) ==> i <= k < slots.len() && slots[k] is Some
            && slots[k]->0.id == id,
        slot_of_from(slots, id, i) is None ==> forall|t: int|
            i <= t < slots.len() ==> !(slots[t] is Some && slots[t]->0.id == id),
    decreases slots.len() - i,
{
    if i < slots.len() {
        lemma_slot_of_from_spec(slots, id, i + 1);
    }
}

proof fn lemma_seat_slot_from_spec(slots: Seq<Option<SessionView>>, seat: u32, i: int)
    requires
        0 <= i,
    ensures
        seat_slot_from(slots, seat, i) matches Some(k) ==> i <= k < slots.len() && slots[k] is Some
            && slots[k]->0.seat == Some(seat),
        seat_slot_from(slots, seat, i) is None ==> forall|t: int|
            i <= t < slots.len() ==> !(slots[t] is Some && slots[t]->0.seat == Some(seat)),
    decreases slots.len() - i,
{
    if i < slots.len() {
        lemma_seat_slot_from_spec(slots, seat, i + 1);
    }
}

proof fn lemma_surface_slot_from_spec(slots: Seq<Option<SessionView>>, surface: u32, i: int)
    requires
        0 <= i,
    ensures
        surface_slot_from(slots, surface, i) matches Some(k) ==> i <= k < slots.len()
            && slots[k] is Some && slots[k]->0.members.contains(surface),
        surface_slot_from(slots, surface, i) is None ==> forall|t: int|
            i <= t < slots.len() ==> !(slots[t] is Some && slots[t]->0.members.contains(surface)),
    decreases slots.len() - i,
{
    if i < slots.len() {
        lemma_surface_slot_from_spec(slots, surface, i + 1);
    }
}

proof fn lemma_free_slot_from_spec(slots: Seq<Option<SessionView>>, i: int)
    requires
        0 <= i,
    ensures
        free_slot_from(slots, i) matches Some(k) ==> i <= k < slots.len() && slots[k] is None
            && forall|t: int| i <= t < k ==> slots[t] is Some,
        free_slot_from(slots, i) is None ==> forall|t: int|
            i <= t < slots.len() ==> slots[t] is Some,
    decreases slots.len() - i,
{
    if i < slots.len() {
        lemma_free_slot_from_spec(slots, i + 1);
    }
}

/// In a well-formed registry a session id names one session: the lookup
/// of an id held by an occupied slot finds that slot.
pub proof fn lemma_slot_of_unique(v: RegistryView, id: u32, k: int)
    requires
        v.wf(),
        0 <= k < 4,
        v.slots[k] is Some,
        v.slots[k]->0.id == id,
    ensures
        v.slot_of(id) == Some(k),
{
    assert forall|t: int| 0 <= t < k implies !(v.slots[t] is Some && v.slots[t]->0.id == id) by {
        if v.slots[t] is Some {
            assert(v.slots[t]->0.id != v.slots[k]->0.id);
        }
    }
    lemma_slot_of_from_found(v.slots, id, 0, k);
}

/// In a well-formed registry a seat has one owner: the owner of a seat
/// bound by a session is that session.
pub proof fn lemma_seat_owner_unique(v: RegistryView, seat: u32, k: int)
    requires
        v.wf(),
        0 <= k < 4,
        v.slots[k] is Some,
        v.slots[k]->0.seat == Some(seat),
    ensures
        v.seat_owner(seat) == Some(v.slots[k]->0.id),
{
    lemma_seat_slot_from_spec(v.slots, seat, 0);
    match seat_slot_from(v.slots, seat, 0) {
        Some(j) => {
            if j != k {
                assert(v.slots[j]->0.seat != v.slots[k]->0.seat);
            }
        },
        None => {},
    }
}

proof fn lemma_surface_owner_unique(v: RegistryView, surface: u32, k: int)
    requires
        v.wf(),
        0 <= k < 4,
        v.slots[k] is Some,
        v.slots[k]->0.members.contains(surface),
    ensures
        v.surface_owner(surface) == Some(v.slots[k]->0.id),
{
    lemma_surface_slot_from_spec(v.slots, surface, 0);
    match surface_slot_from(v.slots, surface, 0) {
        Some(j) => {
            if j != k {
                assert(v.slots[j]->0.members.contains(surface));
                assert(!v.slots[k]->0.members.contains(surface));
            }
        },
        None => {},
    }
}

/// Ids of the registry, when slot `i` changes without changing which slots
/// are occupied or the ids they hold, stay the same.
proof fn lemma_ids_from_same(a: Seq<Option<SessionView>>, b: Seq<Option<SessionView>>, i: int)
    requires
        a.len() == b.len(),
        0 <= i,
        forall|t: int|
            0 <= t < a.len() ==> (a[t] is Some <==> b[t] is Some) && (a[t] is Some ==> a[t]->0.id
                == b[t]->0.id),
    ensures
        ids_from(a, i) == ids_from(b, i),
    decreases a.len() - i,
{
    if i < a.len() {
        lemma_ids_from_same(a, b, i + 1);
    }
}

impl SessionRegistry {
    /// Registry with only the bootstrap graphical session (seat 0) active.
    pub fn boot() -> (r: Self)
        ensures
            r.well_formed(),
            r@.wf(),
            r@.slots == seq![Some(new_session(BOOTSTRAP_SESSION_ID, Some(PRIMARY_SEAT), SessionKind::Graphical)), None::<SessionView>, None::<SessionView>, None::<SessionView>],
            r@.active_id == BOOTSTRAP_SESSION_ID,
            !r@.handoff_active,
            r@.handoff_from == 0,
            r@.handoff_to == 0,
    {
        let mut registry = Self::empty();
        proof {
            lemma_free_slot_from_spec(registry@.slots, 0);
            lemma_slot_of_from_spec(registry@.slots, BOOTSTRAP_SESSION_ID, 0);
            lemma_seat_slot_from_spec(registry@.slots, PRIMARY_SEAT, 0);
            reveal_with_fuel(free_slot_from, 2);
        }
        let _ = registry.insert(BOOTSTRAP_SESSION_ID, Some(PRIMARY_SEAT), SessionKind::Graphical);
        registry.active_id = BOOTSTRAP_SESSION_ID;
        proof {
            assert(registry@.slots =~= seq![Some(new_session(BOOTSTRAP_SESSION_ID, Some(PRIMARY_SEAT), SessionKind::Graphical)), None::<SessionView>, None::<SessionView>, None::<SessionView>]);
        }
        registry
    }

    /// Registry with no session at all.
    pub fn empty() -> (r: Self)
        ensures
            r.well_formed(),
            r@.wf(),
            r@.slots == seq![None::<SessionView>, None::<SessionView>, None::<SessionView>, None::<SessionView>],
            r@.active_id == 0,
            !r@.handoff_active,
            r@.handoff_from == 0,
            r@.handoff_to == 0,
    {
        let r = SessionRegistry {
            entries: [None, None, None, None],
            active_id: 0,
            handoff_active: false,
            handoff_from: 0,
            handoff_to: 0,
        };
        assert(r@.slots =~= seq![None::<SessionView>, None::<SessionView>, None::<SessionView>, None::<SessionView>]);
        r
    }

    /// The registry's invariant: its view is well formed and every session
    /// holds at most `MAX_MEMBERS` surfaces.
    pub closed spec fn well_formed(&self) -> bool {
        self.inv()
    }

    /// A well-formed registry has a well-formed view.
    pub proof fn lemma_well_formed_view(&self)
        requires
            self.well_formed(),
        ensures
            self@.wf(),
    {
    }

    closed spec fn inv(&self) -> bool {
        &&& self@.wf()
        &&& forall|i: int| 0 <= i < 4 && #[trigger] self.entries[i] is Some ==> self.entries[i]->0.inv()
    }

    /// The outcome of registering `id` with `seat`: the error, if any.
    pub open spec fn insert_error(v: RegistryView, id: u32, seat: Option<u32>) -> Option<RegisterError> {
        if free_slot_from(v.slots, 0) is None {
            Some(RegisterError::CapacityExceeded)
        } else if v.has(id) {
            Some(RegisterError::IdInUse)
        } else if seat is Some && v.seat_owner(seat->0) is Some {
            Some(RegisterError::SeatInUse)
        } else {
            None
        }
    }

    /// The registry after a new session takes the first free slot.
    pub open spec fn inserted_view(v: RegistryView, id: u32, seat: Option<u32>, kind: SessionKind) -> RegistryView {
        RegistryView {
            slots: v.slots.update(free_slot_from(v.slots, 0)->0, Some(new_session(id, seat, kind))),
            ..v
        }
    }

    fn free_slot(&self) -> (r: Option<usize>)
        requires
            self.inv(),
        ensures
            r == (match free_slot_from(self@.slots, 0) {
                Some(i) => Some(i as usize),
                None => None::<usize>,
            }),
    {
        let mut i: usize = 0;
        while i < 4
            invariant
                self.inv(),
                i <= 4,
                free_slot_from(self@.slots, 0) == free_slot_from(self@.slots, i as int),
            decreases 4 - i,
        {
            if self.entries[i].is_none() {
                return Some(i);
            }
            i = i + 1;
        }
        None
    }

    fn find(&self, id: u32) -> (r: Option<usize>)
        requires
            self.inv(),
        ensures
            self@.slot_of(id) == (match r {
                Some(i) => Some(i as int),
                None => None::<int>,
            }),
            r matches Some(i) ==> i < 4 && self.entries[i as int] is Some
                && self.entries[i as int]->0.id == id
                && self@.slots[i as int] == Some(self.entries[i as int]->0.view()),
    {
        proof {
            lemma_slot_of_from_spec(self@.slots, id, 0);
        }
        let mut i: usize = 0;
        while i < 4
            invariant
                self.inv(),
                i <= 4,
                self@.slot_of(id) == slot_of_from(self@.slots, id, i as int),
                self@.slots == slots_of(self.entries),
            decreases 4 - i,
        {
            match &self.entries[i] {
                Some(e) => {
                    if e.id == id {
                        return Some(i);
                    }
                },
                None => {},
            }
            i = i + 1;
        }
        None
    }

    fn insert(&mut self, id: u32, seat: Option<u32>, kind: SessionKind) -> (r: Result<u32, RegisterError>)
        requires
            old(self).inv(),
            id != 0,
        ensures
            final(self).inv(),
            Self::insert_error(old(self)@, id, seat) matches Some(e) ==> r == Err::<u32, RegisterError>(e) && final(self)@ == old(self)@,
            Self::insert_error(old(self)@, id, seat) is None ==> r == Ok::<u32, RegisterError>(id) && final(self)@ == Self::inserted_view(old(self)@, id, seat, kind),
    {
        let slot = match self.free_slot() {
            Some(s) => s,
            None => return Err(RegisterError::CapacityExceeded),
        };
        if self.find(id).is_some() {
            return Err(RegisterError::IdInUse);
        }
        match seat {
            Some(s) => {
                if self.seat_owner(s).is_some() {
                    return Err(RegisterError::SeatInUse);
                }
            },
            None => {},
        }
        let ghost before = self@;
        proof {
            lemma_free_slot_from_spec(before.slots, 0);
            lemma_slot_of_from_spec(before.slots, id, 0);
            if seat is Some {
                lemma_seat_slot_from_spec(before.slots, seat->0, 0);
            }
        }
        self.entries[slot] = Some(SessionEntry::new(id, seat, kind));
        proof {
            assert(self@.slots =~= before.slots.update(slot as int, Some(new_session(id, seat, kind))));
            assert forall|i: int, j: int|
                0 <= i < 4 && 0 <= j < 4 && i != j && #[trigger] self@.slots[i] is Some
                    && #[trigger] self@.slots[j] is Some implies {
                    &&& self@.slots[i]->0.id != self@.slots[j]->0.id
                    &&& (self@.slots[i]->0.seat is Some ==> self@.slots[i]->0.seat
                        != self@.slots[j]->0.seat)
                    &&& forall|s: u32|
                        self@.slots[i]->0.members.contains(s) ==> !self@.slots[j]->0.members.contains(s)
                } by {
                if i == slot as int {
                    assert(before.slots[j] is Some);
                    assert(self@.slots[i]->0.members =~= Seq::<u32>::empty());
                } else if j == slot as int {
                    assert(before.slots[i] is Some);
                    assert(self@.slots[j]->0.members =~= Seq::<u32>::empty());
                } else {
                    assert(before.slots[i] is Some && before.slots[j] is Some);
                }
            }
            assert(self@.slots[slot as int]->0.members =~= Seq::<u32>::empty());
        }
        Ok(id)
    }

    /// Register a new session. `requested_id == 0` allocates the smallest
    /// free id; `seat_word == NO_SEAT` registers without a seat binding.
    pub fn register(&mut self, requested_id: u32, seat_word: u32, kind: SessionKind) -> (r: Result<u32, RegisterError>)
        requires
            old(self).well_formed(),
        ensures
            final(self).well_formed(),
            final(self)@.wf(),
            ({
                let id = if requested_id == 0 { old(self)@.next_free_id() } else { requested_id };
                let seat = if seat_word == NO_SEAT { None } else { Some(seat_word) };
                &&& Self::insert_error(old(self)@, id, seat) matches Some(e) ==> r == Err::<u32, RegisterError>(e) && final(self)@ == old(self)@
                &&& Self::insert_error(old(self)@, id, seat) is None ==> r == Ok::<u32, RegisterError>(id) && final(self)@ == Self::inserted_view(old(self)@, id, seat, kind)
            }),
    {
        let id = if requested_id == 0 {
            self.next_free_id()
        } else {
            requested_id
        };
        let seat = if seat_word == NO_SEAT {
            None
        } else {
            Some(seat_word)
        };
        self.insert(id, seat, kind)
    }

    fn next_free_id(&self) -> (id: u32)
        requires
            self.inv(),
        ensures
            id == self@.next_free_id(),
            1 <= id <= 5,
    {
        let mut id: u32 = 1;
        while self.find(id).is_some()
            invariant
                self.inv(),
                1 <= id <= 5,
                forall|j: u32| 1 <= j < id ==> #[trigger] self@.has(j),
            decreases 5 - id,
        {
            proof {
                if id == 5 {
                    self.lemma_five_ids_fit();
                }
            }
            id = id + 1;
        }
        proof {
            let k = id;
            assert(1 <= k && !self@.has(k) && forall|j: u32| 1 <= j < k ==> #[trigger] self@.has(j));
            let c = self@.next_free_id();
            if c != k {
                if c < k {
                    assert(self@.has(c));
                } else {
                    assert(self@.has(k));
                }
            }
        }
        id
    }

    /// Four slots cannot hold the five ids 1 to 5.
    proof fn lemma_five_ids_fit(&self)
        requires
            self.inv(),
            forall|j: u32| 1 <= j < 5 ==> #[trigger] self@.has(j),
        ensures
            !self@.has(5),
    {
        let v = self@;
        lemma_slot_of_from_spec(v.slots, 1, 0);
        lemma_slot_of_from_spec(v.slots, 2, 0);
        lemma_slot_of_from_spec(v.slots, 3, 0);
        lemma_slot_of_from_spec(v.slots, 4, 0);
        lemma_slot_of_from_spec(v.slots, 5, 0);
        assert(v.has(1) && v.has(2) && v.has(3) && v.has(4));
        if v.has(5) {
            let a = v.slot_of(1)->0;
            let b = v.slot_of(2)->0;
            let c = v.slot_of(3)->0;
            let d = v.slot_of(4)->0;
            let e = v.slot_of(5)->0;
            assert(a != b && a != c && a != d && a != e && b != c && b != d && b != e && c != d
                && c != e && d != e);
            assert(false);
        }
    }

    /// Id of the session bound to `seat`.
    pub fn seat_owner(&self, seat: u32) -> (r: Option<u32>)
        requires
            self.well_formed(),
        ensures
            r == self@.seat_owner(seat),
    {
        let mut i: usize = 0;
        while i < 4
            invariant
                self.inv(),
                i <= 4,
                seat_slot_from(self@.slots, seat, 0) == seat_slot_from(self@.slots, seat, i as int),
            decreases 4 - i,
        {
            match &self.entries[i] {
                Some(e) => {
                    if e.seat == Some(seat) {
                        return Some(e.id);
                    }
                },
                None => {},
            }
            i = i + 1;
        }
        None
    }

    /// The active session's id and seat.
    pub fn current(&self) -> (r: Option<(u32, Option<u32>)>)
        requires
            self.well_formed(),
        ensures
            r == (match self@.session(self@.active_id) {
                Some(s) => Some((s.id, s.seat)),
                None => None::<(u32, Option<u32>)>,
            }),
    {
        match self.find(self.active_id) {
            Some(slot) => match &self.entries[slot] {
                Some(e) => Some((e.id, e.seat)),
                None => None,
            },
            None => None,
        }
    }

    /// The active session's id.
    pub fn current_id(&self) -> (id: u32)
        ensures
            id == self@.active_id,
    {
        self.active_id
    }

    /// Writes the ids of the registered sessions, in slot order, into `ids`
    /// (as many as fit) and returns how many were written.
    pub fn list_ids(&self, ids: &mut [u32]) -> (n: usize)
        requires
            self.well_formed(),
        ensures
            n == vstd::math::min(old(ids)@.len() as int, self@.ids().len() as int),
            final(ids)@.len() == old(ids)@.len(),
            final(ids)@.subrange(0, n as int) == self@.ids().subrange(0, n as int),
            final(ids)@.subrange(n as int, old(ids)@.len() as int) == old(ids)@.subrange(n as int, old(ids)@.len() as int),
    {
        let mut count: usize = 0;
        let mut i: usize = 0;
        let ghost all = self@.ids();
        while i < 4
            invariant
                self.inv(),
                i <= 4,
                all == self@.ids(),
                count <= ids@.len(),
                ids@.len() == old(ids)@.len(),
                count == vstd::math::min(ids@.len() as int, (all.len() - ids_from(self@.slots, i as int).len()) as int),
                all == all.subrange(0, all.len() - ids_from(self@.slots, i as int).len()) + ids_from(self@.slots, i as int),
                forall|t: int| 0 <= t < count ==> ids@[t] == all[t],
                forall|t: int| count <= t < ids@.len() ==> ids@[t] == old(ids)@[t],
            decreases 4 - i,
        {
            proof {
                reveal_with_fuel(ids_from, 2);
            }
            match &self.entries[i] {
                Some(e) => {
                    proof {
                        let rest = ids_from(self@.slots, i as int);
                        assert(rest == seq![e.id] + ids_from(self@.slots, i + 1));
                        assert(all[all.len() - rest.len()] == e.id);
                    }
                    if count < ids.len() {
                        ids[count] = e.id;
                        count = count + 1;
                    }
                    proof {
                        let rest = ids_from(self@.slots, i as int);
                        let next = ids_from(self@.slots, i + 1);
                        assert(all.subrange(0, all.len() - next.len()) + next =~= all);
                    }
                },
                None => {},
            }
            i = i + 1;
        }
        proof {
            assert(ids_from(self@.slots, 4) == Seq::<u32>::empty());
            assert(ids@.subrange(0, count as int) =~= all.subrange(0, count as int));
            assert(ids@.subrange(count as int, old(ids)@.len() as int) =~= old(ids)@.subrange(count as int, old(ids)@.len() as int));
        }
        count
    }

    /// Snapshot of session `id`, if it is registered.
    pub fn status(&self, id: u32) -> (r: Option<SessionSnapshot>)
        requires
            self.well_formed(),
        ensures
            r == (match self@.session(id) {
                Some(s) => Some(self@.snapshot(s)),
                None => None::<SessionSnapshot>,
            }),
    {
        match self.find(id) {
            Some(slot) => match &self.entries[slot] {
                Some(e) => Some(e.snapshot(self.active_id)),
                None => None,
            },
            None => None,
        }
    }

    /// True when this session is the sole allowed input/focus target.
    pub fn isolation_allows(&self, id: u32) -> (b: bool)
        ensures
            b == self@.allows(id),
    {
        !self.handoff_active && id != 0 && id == self.active_id
    }

    /// Isolation-policy verdict for kernel input this turn.
    pub fn classify_input(&self) -> (d: InputDecision)
        requires
            self.well_formed(),
        ensures
            d == (if self@.handoff_active {
                InputDecision::DropHandoff
            } else if self@.has(self@.active_id) {
                InputDecision::RouteToDesktop(self@.active_id)
            } else {
                InputDecision::DropNoSession
            }),
    {
        if self.handoff_active {
            return InputDecision::DropHandoff;
        }
        match self.find(self.active_id) {
            Some(slot) => match &self.entries[slot] {
                Some(e) => InputDecision::RouteToDesktop(e.id),
                None => InputDecision::DropNoSession,
            },
            None => InputDecision::DropNoSession,
        }
    }

    /// Begin a handoff: input routes detach immediately; focus teardown and
    /// activation are finished by `complete_switch`.
    pub fn begin_switch(&mut self, target: u32) -> (r: Result<HandoffRecord, SwitchError>)
        requires
            old(self).well_formed(),
        ensures
            final(self).well_formed(),
            final(self)@.wf(),
            Self::switch_error(old(self)@, target) matches Some(e) ==> r == Err::<HandoffRecord, SwitchError>(e) && final(self)@ == old(self)@,
            Self::switch_error(old(self)@, target) is None ==> r == Ok::<HandoffRecord, SwitchError>(Self::started_record(old(self)@, target)),
            Self::switch_error(old(self)@, target) is None ==> final(self)@ == (RegistryView {
                handoff_active: true,
                handoff_from: old(self)@.active_id,
                handoff_to: target,
                ..old(self)@
            }),
    {
        if self.handoff_active {
            return Err(SwitchError::AlreadyActive);
        }
        if target == self.active_id {
            return Err(SwitchError::AlreadyActive);
        }
        if self.find(target).is_none() {
            return Err(SwitchError::UnknownTarget);
        }
        let from = self.active_id;
        self.handoff_active = true;
        self.handoff_from = from;
        self.handoff_to = target;
        Ok(HandoffRecord::new(from, target, None))
    }

    /// The registry after `complete_switch` applies `record` to `v` (with a
    /// handoff in progress).
    pub open spec fn completed_view(v: RegistryView, record: HandoffRecord) -> RegistryView {
        let torn = match v.slot_of(record.from) {
            Some(i) => v.slots.update(i, Some(SessionView { focused_surface: 0, ..v.slots[i]->0 })),
            None => v.slots,
        };
        let from_seat = match v.session(record.from) {
            Some(s) => s.seat,
            None => None,
        };
        let to_has_seat = match v.session(record.to) {
            Some(s) => s.seat is Some,
            None => false,
        };
        let moved = if from_seat is Some && !to_has_seat {
            let a = match v.slot_of(record.from) {
                Some(i) => torn.update(i, Some(SessionView { seat: None, ..torn[i]->0 })),
                None => torn,
            };
            match v.slot_of(record.to) {
                Some(i) => a.update(i, Some(SessionView { seat: from_seat, ..a[i]->0 })),
                None => a,
            }
        } else {
            torn
        };
        RegistryView {
            slots: moved,
            active_id: record.to,
            handoff_active: false,
            handoff_from: 0,
            handoff_to: 0,
        }
    }

    /// The seat `complete_switch` moves from `record.from` to `record.to`.
    pub open spec fn moved_seat(v: RegistryView, record: HandoffRecord) -> Option<u32> {
        let from_seat = match v.session(record.from) {
            Some(s) => s.seat,
            None => None,
        };
        let to_has_seat = match v.session(record.to) {
            Some(s) => s.seat is Some,
            None => false,
        };
        if from_seat is Some && !to_has_seat {
            from_seat
        } else {
            None
        }
    }

    /// Finish a handoff begun by `begin_switch`: tear down outgoing focus,
    /// transfer seat ownership, activate the incoming session.
    pub fn complete_switch(&mut self, record: HandoffRecord) -> (out: HandoffRecord)
        requires
            old(self).well_formed(),
        ensures
            final(self).well_formed(),
            final(self)@.wf(),
            !old(self)@.handoff_active ==> out == record && final(self)@ == old(self)@,
            old(self)@.handoff_active ==> {
                &&& final(self)@ == Self::completed_view(old(self)@, record)
                &&& out.from == record.from
                &&& out.to == record.to
                &&& out.transferred_seat == Self::moved_seat(old(self)@, record)
                &&& forall|i: int| 0 <= i < 4 ==> out.completed[i]
            },
    {
        if !self.handoff_active {
            return record;
        }
        let ghost v0 = self@;
        let from_slot = self.find(record.from);
        let to_slot = self.find(record.to);
        let mut record = record;
        record.completed[0] = true;
        let mut entries = self.entries;
        // Stage 2: clean focus teardown on the outgoing session.
        match from_slot {
            Some(slot) => {
                let mut e = entries[slot].unwrap();
                e.focused_surface = 0;
                entries[slot] = Some(e);
            },
            None => {},
        }
        let ghost torn = slots_of(entries);
        proof {
            assert(torn =~= match v0.slot_of(record.from) {
                Some(i) => v0.slots.update(i, Some(SessionView { focused_surface: 0, ..v0.slots[i]->0 })),
                None => v0.slots,
            });
        }
        record.completed[1] = true;
        // Stage 3: seat ownership moves with the active role.
        let from_seat = match from_slot {
            Some(slot) => entries[slot].unwrap().seat,
            None => None,
        };
        let to_has_seat = match to_slot {
            Some(slot) => entries[slot].unwrap().seat.is_some(),
            None => false,
        };
        let transferred = if from_seat.is_some() && !to_has_seat {
            match from_slot {
                Some(slot) => {
                    let mut e = entries[slot].unwrap();
                    e.seat = None;
                    entries[slot] = Some(e);
                },
                None => {},
            }
            let ghost a = slots_of(entries);
            proof {
                assert(a =~= match v0.slot_of(record.from) {
                    Some(i) => torn.update(i, Some(SessionView { seat: None, ..torn[i]->0 })),
                    None => torn,
                });
            }
            match to_slot {
                Some(slot) => {
                    let mut e = entries[slot].unwrap();
                    e.seat = from_seat;
                    entries[slot] = Some(e);
                },
                None => {},
            }
            proof {
                assert(slots_of(entries) =~= match v0.slot_of(record.to) {
                    Some(i) => a.update(i, Some(SessionView { seat: from_seat, ..a[i]->0 })),
                    None => a,
                });
            }
            from_seat
        } else {
            None
        };
        record.transferred_seat = transferred;
        record.completed[2] = true;
        // Stage 4: activation.
        self.entries = entries;
        self.active_id = record.to;
        self.handoff_active = false;
        self.handoff_from = 0;
        self.handoff_to = 0;
        record.completed[3] = true;
        proof {
            assert(self@ == Self::completed_view(v0, record));
            Self::lemma_completed_view_wf(v0, record);
            assert forall|i: int| 0 <= i < 4 && #[trigger] self.entries[i] is Some implies self.entries[i]->0.inv() by {
                assert(old(self).entries[i] is Some);
            }
        }
        record
    }

    /// Completing a handoff keeps the registry well formed.
    proof fn lemma_completed_view_wf(v: RegistryView, record: HandoffRecord)
        requires
            v.wf(),
        ensures
            Self::completed_view(v, record).wf(),
    {
        let w = Self::completed_view(v, record);
        lemma_slot_of_from_spec(v.slots, record.from, 0);
        lemma_slot_of_from_spec(v.slots, record.to, 0);
        assert forall|i: int| 0 <= i < 4 implies (#[trigger] w.slots[i] is Some) == (v.slots[i] is Some) && (w.slots[i] is Some ==> w.slots[i]->0.id == v.slots[i]->0.id && w.slots[i]->0.members == v.slots[i]->0.members) by {}
        assert forall|i: int, j: int| 0 <= i < 4 && 0 <= j < 4 && i != j && #[trigger] w.slots[i] is Some && #[trigger] w.slots[j] is Some implies {
            &&& w.slots[i]->0.id != w.slots[j]->0.id
            &&& (w.slots[i]->0.seat is Some ==> w.slots[i]->0.seat != w.slots[j]->0.seat)
            &&& forall|s: u32| w.slots[i]->0.members.contains(s) ==> !w.slots[j]->0.members.contains(s)
        } by {
            assert(v.slots[i] is Some && v.slots[j] is Some);
            if Self::moved_seat(v, record) is Some {
                let fs = v.slot_of(record.from)->0;
                match v.slot_of(record.to) {
                    Some(ts) => {
                        if i == ts || j == ts {
                            let other = if i == ts { j } else { i };
                            if other != fs && v.slots[other]->0.seat is Some {
                                assert(v.slots[other]->0.seat != v.slots[fs]->0.seat);
                            }
                        }
                    },
                    None => {},
                }
            }
        }
    }

    /// Why a switch to `target` is refused, if it is.
    pub open spec fn switch_error(v: RegistryView, target: u32) -> Option<SwitchError> {
        if v.handoff_active || target == v.active_id {
            Some(SwitchError::AlreadyActive)
        } else if !v.has(target) {
            Some(SwitchError::UnknownTarget)
        } else {
            None
        }
    }

    /// The record a switch to `target` starts from.
    pub open spec fn started_record(v: RegistryView, target: u32) -> HandoffRecord {
        HandoffRecord {
            from: v.active_id,
            to: target,
            transferred_seat: None,
            completed: [false, false, false, false],
        }
    }

    /// Atomic convenience wrapper: begin + complete in one call.
    pub fn switch_active(&mut self, target: u32) -> (r: Result<HandoffRecord, SwitchError>)
        requires
            old(self).well_formed(),
        ensures
            final(self).well_formed(),
            final(self)@.wf(),
            Self::switch_error(old(self)@, target) matches Some(e) ==> r == Err::<HandoffRecord, SwitchError>(e) && final(self)@ == old(self)@,
            Self::switch_error(old(self)@, target) is None ==> final(self)@ == Self::completed_view(old(self)@, Self::started_record(old(self)@, target)),
            Self::switch_error(old(self)@, target) is None ==> r is Ok,
            r matches Ok(out) ==> out.from == old(self)@.active_id && out.to == target
                && out.transferred_seat == Self::moved_seat(old(self)@, Self::started_record(old(self)@, target))
                && forall|i: int| 0 <= i < 4 ==> out.completed[i],
    {
        let ghost v0 = self@;
        let record = match self.begin_switch(target) {
            Ok(r) => r,
            Err(e) => return Err(e),
        };
        let ghost v1 = self@;
        let out = self.complete_switch(record);
        proof {
            let rec = Self::started_record(v0, target);
            assert(v1.slots == v0.slots);
            assert(Self::completed_view(v1, record) == Self::completed_view(v0, rec));
            assert(Self::moved_seat(v1, record) == Self::moved_seat(v0, rec));
        }
        Ok(out)
    }

    /// The registry after focus moves to `surface` in session `id`.
    pub open spec fn focused_view(v: RegistryView, id: u32, surface: u32) -> RegistryView {
        let i = v.slot_of(id)->0;
        let s = v.slots[i]->0;
        let members = if surface == 0 || s.members.contains(surface) || s.members.len() >= 16 {
            s.members
        } else {
            s.members.push(surface)
        };
        let hint = if surface != 0 && s.surface_count_hint < 1 { 1 } else { s.surface_count_hint };
        RegistryView {
            slots: v.slots.update(i, Some(SessionView { focused_surface: surface, members, surface_count_hint: hint, ..s })),
            ..v
        }
    }

    /// Outcome of a focus request of session `id` for `surface`.
    pub open spec fn focus_outcome(v: RegistryView, id: u32, surface: u32) -> Result<u32, FocusError> {
        if !v.has(id) {
            Err(FocusError::UnknownSession)
        } else if !v.allows(id) {
            Err(FocusError::InactiveSession)
        } else if surface != 0 && v.surface_owner(surface) is Some && v.surface_owner(surface)->0 != id {
            Err(FocusError::ForeignSurface)
        } else {
            Ok(surface)
        }
    }

    /// Focus request against the isolation policy: only the active session
    /// accepts focus, and only on surfaces it owns or that no session owns.
    pub fn focus_request(&mut self, session_id: u32, surface_id: u32) -> (r: Result<u32, FocusError>)
        requires
            old(self).well_formed(),
        ensures
            final(self).well_formed(),
            final(self)@.wf(),
            r == Self::focus_outcome(old(self)@, session_id, surface_id),
            r is Err ==> final(self)@ == old(self)@,
            r is Ok ==> final(self)@ == Self::focused_view(old(self)@, session_id, surface_id),
    {
        let slot = match self.find(session_id) {
            Some(s) => s,
            None => return Err(FocusError::UnknownSession),
        };
        if !self.isolation_allows(session_id) {
            return Err(FocusError::InactiveSession);
        }
        if surface_id != 0 {
            match self.surface_owner(surface_id) {
                Some(owner) => {
                    if owner != session_id {
                        return Err(FocusError::ForeignSurface);
                    }
                },
                None => {},
            }
        }
        let ghost v0 = self@;
        proof {
            lemma_slot_of_from_spec(v0.slots, session_id, 0);
            lemma_surface_slot_from_spec(v0.slots, surface_id, 0);
        }
        let mut e = self.entries[slot].unwrap();
        e.focused_surface = surface_id;
        if surface_id != 0 {
            e.add_member(surface_id);
            if e.surface_count_hint < 1 {
                e.surface_count_hint = 1;
            }
        }
        self.entries[slot] = Some(e);
        proof {
            let w = self@;
            assert(w.slots =~= Self::focused_view(v0, session_id, surface_id).slots);
            let s0 = v0.slots[slot as int]->0;
            let s1 = w.slots[slot as int]->0;
            assert(s1.members.len() <= 16);
            assert(s1.members.no_duplicates());
            assert(!s1.members.contains(0));
            assert forall|i: int, j: int| 0 <= i < 4 && 0 <= j < 4 && i != j && #[trigger] w.slots[i] is Some && #[trigger] w.slots[j] is Some implies {
                &&& w.slots[i]->0.id != w.slots[j]->0.id
                &&& (w.slots[i]->0.seat is Some ==> w.slots[i]->0.seat != w.slots[j]->0.seat)
                &&& forall|s: u32| w.slots[i]->0.members.contains(s) ==> !w.slots[j]->0.members.contains(s)
            } by {
                assert(v0.slots[i] is Some && v0.slots[j] is Some);
                if i == slot as int || j == slot as int {
                    let other = if i == slot as int { j } else { i };
                    assert forall|s: u32| #[trigger] s1.members.contains(s) implies !w.slots[other]->0.members.contains(s) by {
                        if s == surface_id && !s0.members.contains(s) {
                            if v0.slots[other]->0.members.contains(s) {
                                lemma_surface_owner_unique(v0, s, other);
                            }
                        } else {
                            assert(s0.members.contains(s));
                        }
                    }
                }
            }
        }
        Ok(surface_id)
    }

    /// Id of the session that owns `surface_id`.
    pub fn surface_owner(&self, surface_id: u32) -> (r: Option<u32>)
        requires
            self.well_formed(),
        ensures
            r == self@.surface_owner(surface_id),
    {
        let mut i: usize = 0;
        while i < 4
            invariant
                self.inv(),
                i <= 4,
                surface_slot_from(self@.slots, surface_id, 0) == surface_slot_from(self@.slots, surface_id, i as int),
            decreases 4 - i,
        {
            match &self.entries[i] {
                Some(e) => {
                    if e.owns_surface(surface_id) {
                        return Some(e.id);
                    }
                },
                None => {},
            }
            i = i + 1;
        }
        None
    }

    /// Whether a handoff is in progress.
    pub fn handoff_pending(&self) -> (b: bool)
        ensures
            b == self@.handoff_active,
    {
        self.handoff_active
    }

    /// The sessions of the handoff in progress, as (from, to).
    pub fn handoff_window(&self) -> (w: (u32, u32))
        ensures
            w == (self@.handoff_from, self@.handoff_to),
    {
        (self.handoff_from, self.handoff_to)
    }
}

proof fn lemma_slot_of_same(a: Seq<Option<SessionView>>, b: Seq<Option<SessionView>>, id: u32, i: int)
    requires
        a.len() == b.len(),
        0 <= i,
        forall|t: int|
            0 <= t < a.len() ==> (a[t] is Some <==> b[t] is Some) && (a[t] is Some ==> a[t]->0.id
                == b[t]->0.id),
    ensures
        slot_of_from(a, id, i) == slot_of_from(b, id, i),
    decreases a.len() - i,
{
    if i < a.len() {
        lemma_slot_of_same(a, b, id, i + 1);
    }
}

/// Isolation: at any time at most one session may receive input or take
/// focus, and none while a handoff is in progress.
pub proof fn lemma_isolation_single_target(v: RegistryView, a: u32, b: u32)
    ensures
        v.allows(a) && v.allows(b) ==> a == b,
        v.handoff_active ==> !v.allows(a),
{
}

/// After a handoff completes, the incoming session is the only one that
/// may receive input.
pub proof fn lemma_completed_handoff_routes_only_incoming(v: RegistryView, record: HandoffRecord, id: u32)
    ensures
        SessionRegistry::completed_view(v, record).allows(id) <==> id == record.to && id != 0,
{
}

/// Switching from the active session to another one and back restores the
/// original session as active, holding the seat it started with, and leaves
/// the other session without a seat.
pub proof fn lemma_switch_round_trip(v: RegistryView, target: u32)
    requires
        v.wf(),
        SessionRegistry::switch_error(v, target) is None,
        v.session(v.active_id) is Some,
        v.session(target)->0.seat is None,
    ensures
        ({
            let w = SessionRegistry::completed_view(v, SessionRegistry::started_record(v, target));
            let u = SessionRegistry::completed_view(w, SessionRegistry::started_record(w, v.active_id));
            &&& SessionRegistry::switch_error(w, v.active_id) is None
            &&& u.active_id == v.active_id
            &&& u.session(v.active_id)->0.seat == v.session(v.active_id)->0.seat
            &&& u.session(target)->0.seat is None
        }),
{
    let a = v.active_id;
    let rec = SessionRegistry::started_record(v, target);
    let w = SessionRegistry::completed_view(v, rec);
    lemma_slot_of_from_spec(v.slots, a, 0);
    lemma_slot_of_from_spec(v.slots, target, 0);
    let fa = v.slot_of(a)->0;
    let ft = v.slot_of(target)->0;
    assert(fa != ft);
    SessionRegistry::lemma_completed_view_wf(v, rec);
    assert forall|t: int| 0 <= t < w.slots.len() implies (v.slots[t] is Some <==> w.slots[t] is Some) && (v.slots[t] is Some ==> v.slots[t]->0.id == w.slots[t]->0.id) by {}
    lemma_slot_of_same(v.slots, w.slots, a, 0);
    lemma_slot_of_same(v.slots, w.slots, target, 0);
    assert(w.slot_of(a) == Some(fa));
    assert(w.slot_of(target) == Some(ft));
    let rec2 = SessionRegistry::started_record(w, a);
    let u = SessionRegistry::completed_view(w, rec2);
    assert forall|t: int| 0 <= t < u.slots.len() implies (w.slots[t] is Some <==> u.slots[t] is Some) && (w.slots[t] is Some ==> w.slots[t]->0.id == u.slots[t]->0.id) by {}
    lemma_slot_of_same(w.slots, u.slots, a, 0);
    lemma_slot_of_same(w.slots, u.slots, target, 0);
}

/// A switch to `target` begun on a well-formed registry and then completed
/// keeps the registry well formed and its registered ids, makes `target`
/// active with no handoff in progress, clears the outgoing session's
/// focus, and moves the outgoing session's seat to `target` when `target`
/// held none (moving no seat otherwise).
pub proof fn lemma_switch_completes(v: RegistryView, target: u32)
    requires
        v.wf(),
        SessionRegistry::switch_error(v, target) is None,
    ensures
        ({
            let begun = RegistryView { handoff_active: true, handoff_from: v.active_id, handoff_to: target, ..v };
            let rec = SessionRegistry::started_record(v, target);
            let w = SessionRegistry::completed_view(begun, rec);
            let seat = SessionRegistry::moved_seat(begun, rec);
            let from = v.session(v.active_id);
            let moves = from is Some && from->0.seat is Some && v.session(target)->0.seat is None;
            &&& w.wf()
            &&& w.ids() == v.ids()
            &&& w.active_id == target && !w.handoff_active
            &&& (from is Some ==> w.session(v.active_id)->0.focused_surface == 0)
            &&& (moves ==> seat == from->0.seat && w.seat_owner(from->0.seat->0) == Some(target))
            &&& (!moves ==> seat is None)
        }),
{
    let begun = RegistryView { handoff_active: true, handoff_from: v.active_id, handoff_to: target, ..v };
    let rec = SessionRegistry::started_record(v, target);
    let w = SessionRegistry::completed_view(begun, rec);
    let a = v.active_id;
    assert(begun.wf());
    SessionRegistry::lemma_completed_view_wf(begun, rec);
    lemma_slot_of_from_spec(v.slots, a, 0);
    lemma_slot_of_from_spec(v.slots, target, 0);
    assert forall|t: int| 0 <= t < w.slots.len() implies (v.slots[t] is Some <==> w.slots[t] is Some) && (v.slots[t] is Some ==> v.slots[t]->0.id == w.slots[t]->0.id) by {}
    lemma_ids_from_same(v.slots, w.slots, 0);
    lemma_slot_of_same(v.slots, w.slots, a, 0);
    lemma_slot_of_same(v.slots, w.slots, target, 0);
    let ft = v.slot_of(target)->0;
    if v.session(a) is Some {
        let fa = v.slot_of(a)->0;
        assert(fa != ft);
        assert(w.slot_of(a) == Some(fa));
        let from = v.session(a)->0;
        if from.seat is Some && v.session(target)->0.seat is None {
            assert(w.slots[ft]->0.seat == from.seat);
            lemma_seat_owner_unique(w, from.seat->0, ft);
        }
    }
}

} // verus!
