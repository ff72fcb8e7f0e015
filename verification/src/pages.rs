//! Pages and the manager that owns them: which page is active, which are
//! suspended, and which lifecycle hooks run on a transition.

use vstd::prelude::*;
use crate::loops::{Effect, InputMsg, Instance};

verus! {

/// Number of page identities.
pub const PAGE_COUNT: usize = 5;

/// Identity of a page.
#[derive(Debug, Clone, Copy, PartialEq, Eq, Structural, Hash)]
pub enum PageId {
    /// The game itself.
    Game,
    /// The title screen.
    Title,
    /// The settings screen.
    Settings,
    /// The result screen.
    Result,
    /// The song selection screen.
    SongSelect,
}

/// Per-page configuration.
#[derive(Debug, Clone, Copy, PartialEq, Eq, Structural)]
pub struct PageConfig {
    /// Whether the page's instance is kept when the page is left.
    pub cache_enabled: bool,
}

impl Default for PageConfig {
    fn default() -> (config: Self)
        ensures
            config.cache_enabled,
    {
        PageConfig { cache_enabled: true }
    }
}

/// What a page is told besides its lifecycle hooks.
#[derive(Debug, Clone, Copy, PartialEq, Eq, Structural)]
pub enum PageEvent {
    /// The page became active.
    Enter,
    /// The page stopped being active.
    Leave,
    /// Another page was pushed on top of the page.
    Pause,
    /// The page on top was popped.
    Resume,
    /// The window changed its size.
    Resize {
        /// New width in pixels.
        width: u32,
        /// New height in pixels.
        height: u32,
    },
}

/// What a page asks of the manager after an update.
#[derive(Debug, Clone, Copy, PartialEq, Eq, Structural)]
pub enum PageTransition {
    /// Keep the page.
    Stay,
    /// Replace the page by another.
    Switch(PageId),
    /// Suspend the page and show another on top.
    Push(PageId),
    /// Return to the page below.
    Pop,
    /// End the application.
    Exit,
}

/// Why a page operation failed.
#[derive(Debug, Clone, PartialEq, Eq)]
pub enum PageError {
    /// No builder is registered for the page.
    NotRegistered(PageId),
    /// A page or a builder reported a failure.
    Failed(String),
}

/// What a page works with while one of its hooks runs.
pub struct PageContext {
    /// Width and height of the window in pixels.
    pub window_size: (u32, u32),
    /// The time of the call, in nanoseconds on the caller's clock.
    pub now: u64,
    /// Messages that the hooks want sent, in order.
    pub outbox: Vec<Effect>,
}

/// A screen of the application.
pub trait Page {
    /// Identity of the page: what `id` gives. A page that does not say
    /// otherwise leaves it open.
    open spec fn identity(&self) -> PageId {
        arbitrary()
    }

    /// Identity of the page.
    fn id(&self) -> (id: PageId)
        ensures
            id == self.identity(),
    ;

    /// Runs once, when the instance is created.
    fn on_init(&mut self, ctx: &mut PageContext) -> (r: Result<(), PageError>)
        default_ensures
            r is Ok,
            *final(ctx) == *old(ctx),
    {
        Ok(())
    }

    /// Runs each time the page becomes active.
    fn on_enter(&mut self, ctx: &mut PageContext) -> (r: Result<(), PageError>)
        default_ensures
            r is Ok,
            *final(ctx) == *old(ctx),
    {
        Ok(())
    }

    /// Runs each time the page stops being active.
    fn on_leave(&mut self, ctx: &mut PageContext) -> (r: Result<(), PageError>)
        default_ensures
            r is Ok,
            *final(ctx) == *old(ctx),
    {
        Ok(())
    }

    /// Handles an input; tells whether the page consumed it.
    fn on_input(&mut self, msg: &InputMsg, ctx: &mut PageContext) -> (r: Result<bool, PageError>)
        default_ensures
            r == Ok::<bool, PageError>(false),
            *final(ctx) == *old(ctx),
    {
        Ok(false)
    }

    /// Advances the page by `dt` nanoseconds and says what to show next.
    fn on_update(&mut self, dt: u64, ctx: &mut PageContext) -> Result<PageTransition, PageError>;

    /// The rectangles of the page's next frame.
    fn on_render(&mut self, ctx: &mut PageContext) -> Vec<Instance>;

    /// Handles an event.
    fn on_event(&mut self, event: PageEvent, ctx: &mut PageContext) -> (r: Result<(), PageError>)
        default_ensures
            r is Ok,
            *final(ctx) == *old(ctx),
    {
        Ok(())
    }

    /// Runs before the instance is given up.
    fn on_cleanup(&mut self, ctx: &mut PageContext) -> (r: Result<(), PageError>)
        default_ensures
            r is Ok,
            *final(ctx) == *old(ctx),
    {
        Ok(())
    }
}

/// Makes instances of one page.
pub trait PageBuilder {
    /// Identity of the pages that it makes: what `page_id` gives. A builder
    /// that does not say otherwise leaves it open.
    open spec fn builds(&self) -> PageId {
        arbitrary()
    }

    /// A new instance.
    fn build(&self) -> Result<Box<dyn Page>, PageError>;

    /// Identity of the pages that it makes.
    fn page_id(&self) -> (id: PageId)
        ensures
            id == self.builds(),
    ;
}

/// A call that the manager makes into a page or a builder.
#[derive(Debug, Clone, Copy, PartialEq, Eq, Structural)]
pub enum Hook {
    /// `PageBuilder::build`.
    Build,
    /// `Page::on_init`.
    Init,
    /// `Page::on_enter`.
    Enter,
    /// `Page::on_leave`.
    Leave,
    /// `Page::on_cleanup`.
    Cleanup,
    /// `Page::on_event` with `PageEvent::Pause`.
    Pause,
    /// `Page::on_event` with `PageEvent::Resume`.
    Resume,
    /// `Page::on_event` with a `PageEvent::Resize`.
    Resize,
    /// `Page::on_input`.
    Input,
    /// `Page::on_update`.
    Update,
    /// `Page::on_render`.
    Render,
}

/// A call together with the page it went to.
pub struct HookCall {
    /// The page called, or built.
    pub page: PageId,
    /// The call.
    pub hook: Hook,
}

/// What a call into a page or a builder gave.
pub enum Gave {
    /// The outcome of a hook that reports success or failure.
    Done(Result<(), PageError>),
    /// The outcome of the `on_cleanup` of an instance that is given up; the
    /// manager goes on whatever it is.
    Dropped(Result<(), PageError>),
    /// The outcome of `PageBuilder::build`: the failure, or none where an
    /// instance was built.
    Built(Option<PageError>),
    /// The outcome of `Page::on_input`.
    Consumed(Result<bool, PageError>),
    /// The outcome of `Page::on_update`, with the time that the page was
    /// told has passed.
    Asked {
        /// Nanoseconds since the last update.
        dt: u64,
        /// What the page asked for.
        answer: Result<PageTransition, PageError>,
    },
    /// The frame that `Page::on_render` gave.
    Drawn(Seq<Instance>),
}

/// What a page is handed with a call: the context as it is when the call
/// is made. Its outbox is empty.
pub struct Handed {
    /// Width and height of the window.
    pub window: (u32, u32),
    /// The time of the call.
    pub now: u64,
}

/// What goes with a call of `hook` made when the window has the size
/// `window` and the time is `now`: the context, for every call but that of
/// a builder, which takes none.
pub open spec fn handed_with(hook: Hook, window: (u32, u32), now: u64) -> Option<Handed> {
    if hook == Hook::Build {
        None
    } else {
        Some(Handed { window, now })
    }
}

/// Whether an answer is a failure that stops what the manager is doing.
pub open spec fn is_failure(gave: Gave) -> bool {
    match gave {
        Gave::Done(Err(_)) => true,
        Gave::Built(Some(_)) => true,
        _ => false,
    }
}

/// Whether an answer is the failure `e`.
pub open spec fn failed_with(gave: Gave, e: PageError) -> bool {
    match gave {
        Gave::Done(Err(x)) => x == e,
        Gave::Built(Some(x)) => x == e,
        _ => false,
    }
}

/// Whether the answers recorded from `before` to `after` account for the
/// outcome `r`: the manager stops at the first failure and hands it on. So
/// no answer but the last is a failure; a success has no failure at all;
/// and a failure is the last answer recorded.
pub open spec fn stopped_at_failure<T>(before: Seq<Gave>, after: Seq<Gave>, r: Result<T, PageError>)
    -> bool {
    &&& before.is_prefix_of(after)
    &&& forall|i: int| before.len() <= i < after.len() - 1 ==> !is_failure(#[trigger] after[i])
    &&& match r {
        Ok(_) => after.len() > before.len() ==> !is_failure(after.last()),
        Err(e) => after.len() > before.len() && failed_with(after.last(), e),
    }
}

/// What the manager does succeeds exactly where every page and builder
/// that it calls succeeds.
pub proof fn outcome_follows_answers<T>(before: Seq<Gave>, after: Seq<Gave>, r: Result<T, PageError>)
    requires
        stopped_at_failure(before, after, r),
    ensures
        r is Ok <==> forall|i: int| before.len() <= i < after.len() ==> !is_failure(#[trigger] after[i]),
{
    if r is Err {
        assert(is_failure(after[after.len() - 1]));
    }
}

/// What is accounted for in two steps, the first of which succeeded, is
/// accounted for as a whole.
pub proof fn stops_compose<T>(
    before: Seq<Gave>,
    between: Seq<Gave>,
    after: Seq<Gave>,
    r: Result<T, PageError>,
)
    requires
        stopped_at_failure::<()>(before, between, Ok(())),
        stopped_at_failure(between, after, r),
    ensures
        stopped_at_failure(before, after, r),
{
    assert forall|i: int| before.len() <= i < after.len() - 1 implies !is_failure(
        #[trigger] after[i],
    ) by {
        if i < between.len() {
            assert(after[i] == between[i]);
        }
    }
    if after.len() == between.len() && after.len() > before.len() {
        assert(after.last() == between.last());
    }
}

/// What the manager holds, without the pages' own state.
pub struct ManagerView {
    /// The active page.
    pub current: Option<PageId>,
    /// The suspended pages, the one to return to first being last.
    pub stack: Seq<PageId>,
    /// The pages that have an instance.
    pub cached: Set<PageId>,
    /// The pages whose instance is kept when they are left.
    pub cache_enabled: Set<PageId>,
    /// The pages that have a builder.
    pub builders: Set<PageId>,
}

/// The call `hook` into `page`.
pub open spec fn call(page: PageId, hook: Hook) -> HookCall {
    HookCall { page, hook }
}

impl ManagerView {
    /// The calls that leaving the active page makes: `on_leave`, then
    /// `on_cleanup` unless the page's instance is kept.
    pub open spec fn leave_script(self) -> Seq<HookCall> {
        match self.current {
            Some(page) => self.leave_script_of(page),
            None => Seq::empty(),
        }
    }

    /// The calls that leaving `page` makes.
    pub open spec fn leave_script_of(self, page: PageId) -> Seq<HookCall> {
        if self.cached.contains(page) {
            if self.cache_enabled.contains(page) {
                seq![call(page, Hook::Leave)]
            } else {
                seq![call(page, Hook::Leave), call(page, Hook::Cleanup)]
            }
        } else {
            Seq::empty()
        }
    }

    /// Whether making `page` active uses the instance that is there.
    pub open spec fn reuses(self, page: PageId) -> bool {
        self.cache_enabled.contains(page) && self.cached.contains(page)
    }

    /// Whether `page` cannot be made active: it has no instance to use again
    /// and no builder to make one.
    pub open spec fn refuses(self, page: PageId) -> bool {
        !self.reuses(page) && !self.builders.contains(page)
    }

    /// The page that a transition makes active, if it makes one active.
    pub open spec fn target(self, transition: PageTransition) -> Option<PageId> {
        match transition {
            PageTransition::Switch(page) => Some(page),
            PageTransition::Push(page) => Some(page),
            PageTransition::Pop => if self.stack.len() > 0 {
                Some(self.stack.last())
            } else {
                None
            },
            _ => None,
        }
    }

    /// The calls that making `page` active makes. A kept instance is
    /// entered, after `Resume` where it comes back from the stack. Otherwise
    /// an instance that is still there is cleaned up and given up, and a new
    /// one is built, initialised and entered.
    pub open spec fn activate_script(self, page: PageId, resume: bool) -> Seq<HookCall> {
        if self.reuses(page) {
            if resume {
                seq![call(page, Hook::Resume), call(page, Hook::Enter)]
            } else {
                seq![call(page, Hook::Enter)]
            }
        } else if self.cached.contains(page) {
            seq![
                call(page, Hook::Cleanup),
                call(page, Hook::Build),
                call(page, Hook::Init),
                call(page, Hook::Enter),
            ]
        } else {
            seq![call(page, Hook::Build), call(page, Hook::Init), call(page, Hook::Enter)]
        }
    }

    /// The manager after `page` was made active.
    pub open spec fn activated(self, page: PageId) -> ManagerView {
        ManagerView { current: Some(page), cached: self.cached.insert(page), ..self }
    }

    /// The calls of a switch to `page`.
    pub open spec fn switch_script(self, page: PageId) -> Seq<HookCall> {
        self.leave_script() + self.activate_script(page, false)
    }

    /// The calls that suspending the active page makes.
    pub open spec fn pause_script(self) -> Seq<HookCall> {
        match self.current {
            Some(page) => if self.cached.contains(page) {
                seq![call(page, Hook::Pause)]
            } else {
                Seq::empty()
            },
            None => Seq::empty(),
        }
    }

    /// The manager after the active page was put on the stack.
    pub open spec fn suspended(self) -> ManagerView {
        match self.current {
            Some(page) => ManagerView { stack: self.stack.push(page), ..self },
            None => self,
        }
    }

    /// The calls of a push of `page`.
    pub open spec fn push_script(self, page: PageId) -> Seq<HookCall> {
        self.pause_script() + self.switch_script(page)
    }

    /// The manager after a push of `page`.
    pub open spec fn pushed(self, page: PageId) -> ManagerView {
        self.suspended().activated(page)
    }

    /// The calls of a pop.
    pub open spec fn pop_script(self) -> Seq<HookCall> {
        if self.stack.len() == 0 {
            self.leave_script()
        } else {
            self.leave_script() + self.activate_script(self.stack.last(), true)
        }
    }

    /// The manager after the top of the stack was taken off and named the
    /// active page.
    pub open spec fn unwound(self) -> ManagerView {
        if self.stack.len() == 0 {
            self
        } else {
            ManagerView { current: Some(self.stack.last()), stack: self.stack.drop_last(), ..self }
        }
    }

    /// The manager after a pop.
    pub open spec fn popped(self) -> ManagerView {
        if self.stack.len() == 0 {
            self
        } else {
            self.unwound().activated(self.stack.last())
        }
    }

    /// The calls of installing a ready-made instance of `page`: the active
    /// page is left, the new instance initialised and entered.
    pub open spec fn install_script(self, page: PageId) -> Seq<HookCall> {
        self.leave_script() + seq![call(page, Hook::Init), call(page, Hook::Enter)]
    }

    /// The manager after a builder for `page` was registered.
    pub open spec fn registered(self, page: PageId) -> ManagerView {
        ManagerView { builders: self.builders.insert(page), ..self }
    }

    /// The calls that carrying out a transition makes.
    pub open spec fn transition_script(self, transition: PageTransition) -> Seq<HookCall> {
        match transition {
            PageTransition::Stay => Seq::empty(),
            PageTransition::Switch(page) => self.switch_script(page),
            PageTransition::Push(page) => self.push_script(page),
            PageTransition::Pop => self.pop_script(),
            PageTransition::Exit => Seq::empty(),
        }
    }

    /// The manager after a transition was carried out.
    pub open spec fn transitioned(self, transition: PageTransition) -> ManagerView {
        match transition {
            PageTransition::Stay => self,
            PageTransition::Switch(page) => self.activated(page),
            PageTransition::Push(page) => self.pushed(page),
            PageTransition::Pop => self.popped(),
            PageTransition::Exit => self,
        }
    }

    /// The page that input, updates and frames go to: the active page, where
    /// it has an instance.
    pub open spec fn receiver(self) -> Option<PageId> {
        match self.current {
            Some(page) => if self.cached.contains(page) {
                Some(page)
            } else {
                None
            },
            None => None,
        }
    }

    /// Whether two managers differ at most in whether `page` has an
    /// instance, which the second may have lost.
    pub open spec fn same_but_instance(self, other: ManagerView, page: PageId) -> bool {
        &&& other.current == self.current
        &&& other.stack == self.stack
        &&& other.cache_enabled == self.cache_enabled
        &&& other.builders == self.builders
        &&& (other.cached == self.cached || other.cached == self.cached.remove(page))
    }
}

/// How often a call stands in a list of calls.
pub open spec fn occurrences(calls: Seq<HookCall>, wanted: HookCall) -> nat
    decreases calls.len(),
{
    if calls.len() == 0 {
        0
    } else {
        occurrences(calls.drop_last(), wanted) + if calls.last() == wanted {
            1nat
        } else {
            0nat
        }
    }
}

/// Position of a page in the manager's tables.
pub open spec fn slot_of(id: PageId) -> int {
    match id {
        PageId::Game => 0,
        PageId::Title => 1,
        PageId::Settings => 2,
        PageId::Result => 3,
        PageId::SongSelect => 4,
    }
}

/// Different pages have different positions, all of them in the tables.
proof fn slots_differ()
    ensures
        forall|a: PageId, b: PageId| #[trigger] slot_of(a) == #[trigger] slot_of(b) ==> a == b,
        forall|a: PageId| 0 <= #[trigger] slot_of(a) < PAGE_COUNT,
{
}

/// Position of a page in the manager's tables.
fn slot(id: PageId) -> (s: usize)
    ensures
        s == slot_of(id),
        s < PAGE_COUNT,
{
    match id {
        PageId::Game => 0,
        PageId::Title => 1,
        PageId::Settings => 2,
        PageId::Result => 3,
        PageId::SongSelect => 4,
    }
}

/// Whether `after` is `before` followed by the first calls of `script`, as
/// many as were made.
pub open spec fn extends_by(before: Seq<HookCall>, after: Seq<HookCall>, script: Seq<HookCall>)
    -> bool {
    &&& before.len() <= after.len() <= before.len() + script.len()
    &&& after == before + script.take(after.len() - before.len())
}

/// The page manager: owns the page instances, knows which page is active
/// and which are suspended, and runs the lifecycle hooks of a transition.
pub struct PageManager {
    /// The instance of each page, by slot.
    pages: Vec<Option<Box<dyn Page>>>,
    /// The builder of each page, by slot.
    builders: Vec<Option<Box<dyn PageBuilder>>>,
    /// Whether the instance of each page is kept, by slot.
    cache_flags: [bool; 5],
    /// The active page.
    current_page_id: Option<PageId>,
    /// The suspended pages.
    page_stack: Vec<PageId>,
    /// Width and height of the window.
    window_size: (u32, u32),
    /// The time that the hooks are told.
    now: u64,
    /// Messages that the hooks asked for and that were not handed out yet.
    outbox: Vec<Effect>,
    /// Time of the last update.
    last_frame_time: u64,
    /// Every call made into a page or a builder, in order.
    trace: Ghost<Seq<HookCall>>,
    /// What each of those calls gave, in the same order.
    answers: Ghost<Seq<Gave>>,
    /// What each of those calls was handed, in the same order.
    handed: Ghost<Seq<Option<Handed>>>,
}

impl PageManager {
    /// Whether the manager's tables have a place for every page. Every
    /// manager that `new` made has, whatever was done with it since.
    pub closed spec fn wf(&self) -> bool {
        &&& self.pages@.len() == PAGE_COUNT
        &&& self.builders@.len() == PAGE_COUNT
        &&& self.answers@.len() == self.trace@.len()
        &&& self.handed@.len() == self.trace@.len()
    }

    /// In a manager that `new` made, the calls, what they were handed and
    /// what they gave are recorded in step: entry for entry they belong
    /// together.
    pub proof fn records_are_in_step(&self)
        requires
            self.wf(),
        ensures
            self.answers().len() == self.trace().len(),
            self.handed().len() == self.trace().len(),
    {
    }

    /// What the manager holds.
    pub closed spec fn view(&self) -> ManagerView {
        ManagerView {
            current: self.current_page_id,
            stack: self.page_stack@,
            cached: Set::new(|id: PageId| self.pages@[slot_of(id)] is Some),
            cache_enabled: Set::new(|id: PageId| self.cache_flags@[slot_of(id)]),
            builders: Set::new(|id: PageId| self.builders@[slot_of(id)] is Some),
        }
    }

    /// Every call that the manager has made into a page or a builder.
    pub closed spec fn trace(&self) -> Seq<HookCall> {
        self.trace@
    }

    /// What each call of the trace gave, in the order of the calls.
    pub closed spec fn answers(&self) -> Seq<Gave> {
        self.answers@
    }

    /// What each call of the trace was handed, in the order of the calls.
    pub closed spec fn handed(&self) -> Seq<Option<Handed>> {
        self.handed@
    }

    /// What holds from this manager to `mid` and from `mid` to `other`
    /// holds from this manager to `other`, where window and time stayed.
    pub proof fn keeps_calls_compose(&self, mid: &PageManager, other: &PageManager)
        requires
            self.wf(),
            mid.wf(),
            other.wf(),
            self.keeps_calls(mid),
            mid.keeps_calls(other),
            other.window() == mid.window(),
            other.clock() == mid.clock(),
        ensures
            self.keeps_calls(other),
    {
        assert forall|i: int| self.handed().len() <= i < other.handed().len() implies (
        #[trigger] other.handed()[i]) == handed_with(
            other.trace()[i].hook,
            other.window(),
            other.clock(),
        ) by {
            if i < mid.handed().len() {
                assert(other.handed()[i] == mid.handed()[i]);
                assert(other.trace()[i] == mid.trace()[i]);
            }
        }
    }

    /// The time of the last update.
    pub closed spec fn last_update(&self) -> u64 {
        self.last_frame_time
    }

    /// Whether `other` is this manager at a later time: every message that
    /// is pending stays pending, in its place before those that came since;
    /// every answer recorded stays recorded, and one more is recorded for
    /// each call made since; and no update was made.
    pub open spec fn keeps_record(&self, other: &PageManager) -> bool {
        &&& self.keeps_calls(other)
        &&& other.last_update() == self.last_update()
    }

    /// Whether `other` is this manager after more calls: every message that
    /// is pending stays pending, in its place before those that came since;
    /// every answer recorded stays recorded, and one more is recorded for
    /// each call made since; and each of those calls was handed the window
    /// and the time that `other` has.
    pub open spec fn keeps_calls(&self, other: &PageManager) -> bool {
        &&& self.trace().is_prefix_of(other.trace())
        &&& self.pending().is_prefix_of(other.pending())
        &&& self.answers().is_prefix_of(other.answers())
        &&& self.handed().is_prefix_of(other.handed())
        &&& other.answers().len() - self.answers().len() == other.trace().len() - self.trace().len()
        &&& other.handed().len() - self.handed().len() == other.trace().len() - self.trace().len()
        &&& forall|i: int|
            self.handed().len() <= i < other.handed().len() ==> #[trigger] other.handed()[i]
                == handed_with(other.trace()[i].hook, other.window(), other.clock())
    }

    /// The size of the window that the hooks are told.
    pub closed spec fn window(&self) -> (u32, u32) {
        self.window_size
    }

    /// The time that the hooks are told.
    pub closed spec fn clock(&self) -> u64 {
        self.now
    }

    /// The messages that the hooks asked for and that were not handed out
    /// yet, in the order in which they asked.
    pub closed spec fn pending(&self) -> Seq<Effect> {
        self.outbox@
    }

    /// A manager without pages: nothing is active, nothing suspended, no
    /// builder registered, and every page's instance is kept by default.
    pub fn new() -> (manager: Self)
        ensures
            manager.wf(),
            manager@.current is None,
            manager@.stack.len() == 0,
            manager@.cached == Set::<PageId>::empty(),
            manager@.builders == Set::<PageId>::empty(),
            manager@.cache_enabled == Set::<PageId>::full(),
            manager.trace().len() == 0,
            manager.answers().len() == 0,
            manager.handed().len() == 0,
            manager.last_update() == 0,
            manager.clock() == 0,
            manager.pending().len() == 0,
            manager.window() == (1920u32, 1080u32),
    {
        let mut pages: Vec<Option<Box<dyn Page>>> = Vec::new();
        let mut builders: Vec<Option<Box<dyn PageBuilder>>> = Vec::new();
        let mut i: usize = 0;
        while i < PAGE_COUNT
            invariant
                i <= PAGE_COUNT,
                pages@.len() == i,
                builders@.len() == i,
                forall|j: int| 0 <= j < i ==> pages@[j] is None,
                forall|j: int| 0 <= j < i ==> builders@[j] is None,
            decreases PAGE_COUNT - i,
        {
            pages.push(None);
            builders.push(None);
            i += 1;
        }
        let cache_flags: [bool; 5] = [true; 5];
        let manager = PageManager {
            pages,
            builders,
            cache_flags,
            current_page_id: None,
            page_stack: Vec::new(),
            window_size: (1920, 1080),
            now: 0,
            outbox: Vec::new(),
            last_frame_time: 0,
            trace: Ghost(Seq::empty()),
            answers: Ghost(Seq::empty()),
            handed: Ghost(Seq::empty()),
        };
        assert(manager@.cached =~= Set::<PageId>::empty());
        assert(manager@.builders =~= Set::<PageId>::empty());
        assert(manager@.cache_enabled =~= Set::<PageId>::full());
        manager
    }

    /// The active page.
    pub fn current_page(&self) -> (id: Option<PageId>)
        ensures
            id == self@.current,
    {
        self.current_page_id
    }

    /// Number of suspended pages.
    pub fn stack_depth(&self) -> (depth: usize)
        ensures
            depth == self@.stack.len(),
    {
        self.page_stack.len()
    }

    /// Tells whether a page has an instance.
    pub fn has_page(&self, id: PageId) -> (held: bool)
        requires
            self.wf(),
        ensures
            held == self@.cached.contains(id),
    {
        self.pages[slot(id)].is_some()
    }

    /// Tells the manager the time, which the hooks are told in turn.
    pub fn set_time(&mut self, now: u64)
        requires
            old(self).wf(),
        ensures
            final(self).wf(),
            final(self)@ == old(self)@,
            final(self).trace() == old(self).trace(),
            final(self).window() == old(self).window(),
            final(self).pending() == old(self).pending(),
            final(self).answers() == old(self).answers(),
            final(self).handed() == old(self).handed(),
            final(self).last_update() == old(self).last_update(),
            final(self).clock() == now,
    {
        self.now = now;
    }

    /// Hands out the messages that the hooks have asked for since the last
    /// call, in the order in which they asked.
    pub fn take_effects(&mut self) -> (effects: Vec<Effect>)
        requires
            old(self).wf(),
        ensures
            final(self).wf(),
            effects@ == old(self).pending(),
            final(self).pending().len() == 0,
            final(self).answers() == old(self).answers(),
            final(self).handed() == old(self).handed(),
            final(self).last_update() == old(self).last_update(),
            final(self)@ == old(self)@,
            final(self).trace() == old(self).trace(),
            final(self).window() == old(self).window(),
            final(self).clock() == old(self).clock(),
    {
        let mut effects: Vec<Effect> = Vec::new();
        effects.append(&mut self.outbox);
        effects
    }

    /// Registers the builder under the page that it builds, in place of an
    /// earlier one for that page.
    pub fn register_builder(&mut self, builder: Box<dyn PageBuilder>) -> (r: Result<(), PageError>)
        requires
            old(self).wf(),
        ensures
            final(self).wf(),
            r is Ok,
            final(self).trace() == old(self).trace(),
            final(self).answers() == old(self).answers(),
            final(self).pending() == old(self).pending(),
            final(self).last_update() == old(self).last_update(),
            final(self).window() == old(self).window(),
            final(self).clock() == old(self).clock(),
            final(self)@ == old(self)@.registered(builder.builds()),
    {
        let id = builder.page_id();
        let s = slot(id);
        self.builders[s] = Some(builder);
        proof {
            let after = old(self)@.registered(id);
            slots_differ();
            assert(self@.builders =~= after.builders);
            assert(self@.cached =~= after.cached);
            assert(self@.cache_enabled =~= after.cache_enabled);
            assert(self@ == after);
        }
        Ok(())
    }

    /// Sets the configuration of a page.
    pub fn set_page_config(&mut self, id: PageId, config: PageConfig)
        requires
            old(self).wf(),
        ensures
            final(self).wf(),
            final(self).trace() == old(self).trace(),
            final(self).answers() == old(self).answers(),
            final(self).handed() == old(self).handed(),
            final(self).pending() == old(self).pending(),
            final(self).window() == old(self).window(),
            final(self).clock() == old(self).clock(),
            final(self).last_update() == old(self).last_update(),
            final(self)@ == (ManagerView {
                cache_enabled: if config.cache_enabled {
                    old(self)@.cache_enabled.insert(id)
                } else {
                    old(self)@.cache_enabled.remove(id)
                },
                ..old(self)@
            }),
    {
        let s = slot(id);
        self.cache_flags[s] = config.cache_enabled;
        proof {
            let after = ManagerView {
                cache_enabled: if config.cache_enabled {
                    old(self)@.cache_enabled.insert(id)
                } else {
                    old(self)@.cache_enabled.remove(id)
                },
                ..old(self)@
            };
            slots_differ();
            assert(self@.builders =~= after.builders);
            assert(self@.cached =~= after.cached);
            assert(self@.cache_enabled =~= after.cache_enabled);
            assert(self@ == after);
        }
    }

    /// The configuration of a page; a page that was given none keeps its
    /// instance.
    pub fn get_page_config(&self, id: PageId) -> (config: PageConfig)
        requires
            self.wf(),
        ensures
            config.cache_enabled == self@.cache_enabled.contains(id),
    {
        PageConfig { cache_enabled: self.cache_flags[slot(id)] }
    }
}

/// The failure of an outcome, or none where it is a success.
pub open spec fn failure_of<T>(r: Result<T, PageError>) -> Option<PageError> {
    match r {
        Ok(_) => None,
        Err(e) => Some(e),
    }
}

/// Whether an outcome is the failure for want of a builder for `id`.
pub open spec fn lacks_builder<T>(r: Result<T, PageError>, id: PageId) -> bool {
    match r {
        Err(PageError::NotRegistered(page)) => page == id,
        _ => false,
    }
}

/// Whether a failure is accounted for: it follows a call into a page or a
/// builder, or it is the want of a builder for `id`, which the manager then
/// lacks.
pub open spec fn failure_explained<T>(
    before: Seq<HookCall>,
    after: Seq<HookCall>,
    r: Result<T, PageError>,
    held: ManagerView,
    id: PageId,
) -> bool {
    r is Err ==> after.len() > before.len() || (lacks_builder(r, id) && !held.builders.contains(id))
}

/// Time from `last` to `now`; none where `now` is the earlier.
pub open spec fn elapsed(now: u64, last: u64) -> u64 {
    if now >= last {
        (now - last) as u64
    } else {
        0
    }
}

/// Whether `after` is a manager on which `transition` was carried out with
/// the outcome `r`, where it held `held`, had made the calls `from` and had
/// recorded the answers `told` before. The calls made since are those of
/// the transition, as far as it came. A success leaves what the transition
/// leaves and tells whether the application goes on. A transition to a page
/// that cannot be made active is not begun: it fails with `NotRegistered`
/// and changes nothing. Otherwise the transition fails exactly where a page
/// or builder that it calls fails, and hands that failure on.
pub open spec fn carried_out(
    after: &PageManager,
    held: ManagerView,
    from: Seq<HookCall>,
    told: Seq<Gave>,
    transition: PageTransition,
    r: Result<bool, PageError>,
) -> bool {
    &&& extends_by(from, after.trace(), held.transition_script(transition))
    &&& r is Ok ==> {
        &&& after@ == held.transitioned(transition)
        &&& after.trace() == from + held.transition_script(transition)
        &&& r == Ok::<bool, PageError>(transition != PageTransition::Exit)
    }
    &&& match held.target(transition) {
        Some(page) => if held.refuses(page) {
            lacks_builder(r, page) && after@ == held && after.trace() == from && after.answers()
                == told
        } else {
            (r is Err ==> after.trace().len() > from.len()) && stopped_at_failure(
                told,
                after.answers(),
                r,
            )
        },
        None => (r is Err ==> after.trace().len() > from.len()) && stopped_at_failure(
            told,
            after.answers(),
            r,
        ),
    }
    &&& held.transition_script(transition).len() == 0 ==> r is Ok
}

/// Whether a hook takes nothing but the context and reports success or
/// failure.
pub open spec fn is_plain(hook: Hook) -> bool {
    hook == Hook::Init || hook == Hook::Enter || hook == Hook::Leave || hook == Hook::Cleanup
        || hook == Hook::Pause || hook == Hook::Resume || hook == Hook::Resize
}

/// Calls a plain hook on a page.
fn call_plain(page: &mut Box<dyn Page>, hook: Hook, ctx: &mut PageContext) -> (r: Result<
    (),
    PageError,
>)
    requires
        is_plain(hook),
{
    match hook {
        Hook::Init => page.on_init(ctx),
        Hook::Enter => page.on_enter(ctx),
        Hook::Leave => page.on_leave(ctx),
        Hook::Cleanup => page.on_cleanup(ctx),
        Hook::Pause => page.on_event(PageEvent::Pause, ctx),
        Hook::Resume => page.on_event(PageEvent::Resume, ctx),
        _ => {
            let (width, height) = ctx.window_size;
            page.on_event(PageEvent::Resize { width, height }, ctx)
        },
    }
}

impl PageManager {
    /// Whether `other` is this manager with nothing done to it.
    pub open spec fn untouched(&self, other: &PageManager) -> bool {
        &&& other.wf()
        &&& other@ == self@
        &&& other.trace() == self.trace()
        &&& other.answers() == self.answers()
        &&& other.handed() == self.handed()
        &&& other.pending() == self.pending()
        &&& other.window() == self.window()
        &&& other.clock() == self.clock()
        &&& other.last_update() == self.last_update()
    }

    /// What holds of a transition to `id` that ended with `r`. Where the
    /// page cannot be made active the transition is not begun: the outcome
    /// is `NotRegistered(id)` and nothing was done. Where it can, the
    /// transition fails exactly where a page or builder that it calls
    /// fails: it stops there and hands the failure on.
    pub open spec fn aborts_or_runs<T>(
        &self,
        other: &PageManager,
        r: Result<T, PageError>,
        id: PageId,
    ) -> bool {
        if self@.refuses(id) {
            lacks_builder(r, id) && self.untouched(other)
        } else {
            &&& r is Err ==> other.trace().len() > self.trace().len()
            &&& stopped_at_failure(self.answers(), other.answers(), r)
        }
    }

    /// Tells whether a page cannot be made active.
    fn is_refused(&self, id: PageId) -> (refused: bool)
        requires
            self.wf(),
        ensures
            refused == self@.refuses(id),
    {
        let config = self.get_page_config(id);
        !(config.cache_enabled && self.has_page(id)) && self.builders[slot(id)].is_none()
    }

    /// Whether `other` is this manager after calls into pages that left the
    /// manager's own state as it was.
    pub open spec fn unchanged_but_trace(&self, other: &PageManager) -> bool {
        &&& other.wf()
        &&& other@ == self@
        &&& other.window() == self.window()
        &&& other.clock() == self.clock()
        &&& self.keeps_record(other)
    }

    /// A context for one call into a page.
    fn create_context(&self) -> (ctx: PageContext)
        ensures
            ctx.window_size == self.window(),
            ctx.now == self.clock(),
            ctx.outbox@.len() == 0,
    {
        PageContext { window_size: self.window_size, now: self.now, outbox: Vec::new() }
    }

    /// Calls a plain hook on the instance of `id`; does nothing where the
    /// page has no instance.
    fn run_hook(&mut self, id: PageId, hook: Hook) -> (r: Result<(), PageError>)
        requires
            old(self).wf(),
            is_plain(hook),
        ensures
            old(self).unchanged_but_trace(final(self)),
            final(self).trace() == if old(self)@.cached.contains(id) {
                old(self).trace().push(call(id, hook))
            } else {
                old(self).trace()
            },
            final(self).answers() == if old(self)@.cached.contains(id) {
                old(self).answers().push(Gave::Done(r))
            } else {
                old(self).answers()
            },
            !old(self)@.cached.contains(id) ==> r is Ok && old(self).untouched(final(self)),
            stopped_at_failure(old(self).answers(), final(self).answers(), r),
    {
        let s = slot(id);
        let mut ctx = self.create_context();
        match self.pages[s].take() {
            Some(mut page) => {
                let r = call_plain(&mut page, hook, &mut ctx);
                self.pages[s] = Some(page);
                self.outbox.append(&mut ctx.outbox);
                proof {
                    self.trace@ = self.trace@.push(call(id, hook));
                    self.answers@ = self.answers@.push(Gave::Done(r));
                    self.handed@ = self.handed@.push(handed_with(hook, self.window(), self.clock()));
                    slots_differ();
                    assert(self@.cached =~= old(self)@.cached);
                    assert(self@.builders =~= old(self)@.builders);
                }
                r
            },
            None => {
                proof {
                    slots_differ();
                    assert(self@.cached =~= old(self)@.cached);
                    assert(self@.builders =~= old(self)@.builders);
                }
                Ok(())
            },
        }
    }

    /// Leaves a page: `on_leave`, then `on_cleanup` unless the page's
    /// instance is kept. The instance stays with the manager either way.
    fn handle_page_leave(&mut self, page_id: PageId) -> (r: Result<(), PageError>)
        requires
            old(self).wf(),
        ensures
            old(self).unchanged_but_trace(final(self)),
            extends_by(old(self).trace(), final(self).trace(), old(self)@.leave_script_of(page_id)),
            r is Ok ==> final(self).trace() == old(self).trace() + old(self)@.leave_script_of(
                page_id,
            ),
            old(self)@.leave_script_of(page_id).len() == 0 ==> r is Ok,
            r is Err ==> final(self).trace().len() > old(self).trace().len(),
            stopped_at_failure(old(self).answers(), final(self).answers(), r),
    {
        let config = self.get_page_config(page_id);
        let ghost script = self@.leave_script_of(page_id);
        let ghost before = self.trace();
        match self.run_hook(page_id, Hook::Leave) {
            Ok(()) => {},
            Err(e) => {
                assert(self.trace() =~= before + script.take(1));
                return Err(e);
            },
        }
        if !config.cache_enabled {
            let ghost left = *self;
            let r = self.run_hook(page_id, Hook::Cleanup);
            proof {
                old(self).keeps_calls_compose(&left, self);
            }
            assert(self.trace() =~= before + script);
            assert(script.take(script.len() as int) =~= script);
            r
        } else {
            assert(self.trace() =~= before + script);
            assert(script.take(script.len() as int) =~= script);
            Ok(())
        }
    }

    /// Leaves the active page, if there is one.
    fn leave_current(&mut self) -> (r: Result<(), PageError>)
        requires
            old(self).wf(),
        ensures
            old(self).unchanged_but_trace(final(self)),
            extends_by(old(self).trace(), final(self).trace(), old(self)@.leave_script()),
            r is Ok ==> final(self).trace() == old(self).trace() + old(self)@.leave_script(),
            old(self)@.leave_script().len() == 0 ==> r is Ok,
            r is Err ==> final(self).trace().len() > old(self).trace().len(),
            stopped_at_failure(old(self).answers(), final(self).answers(), r),
    {
        match self.current_page_id {
            Some(current_id) => self.handle_page_leave(current_id),
            None => {
                assert(self.trace() =~= old(self).trace() + Seq::<HookCall>::empty());
                assert(Seq::<HookCall>::empty().take(0) =~= Seq::<HookCall>::empty());
                Ok(())
            },
        }
    }
}

impl PageManager {
    /// Gives up the instance of `id`, if there is one, after its
    /// `on_cleanup`, whose outcome is ignored.
    fn discard_page(&mut self, id: PageId)
        requires
            old(self).wf(),
        ensures
            final(self).wf(),
            final(self).window() == old(self).window(),
            final(self).clock() == old(self).clock(),
            old(self).keeps_record(final(self)),
            stopped_at_failure::<()>(old(self).answers(), final(self).answers(), Ok(())),
            final(self)@ == (ManagerView { cached: old(self)@.cached.remove(id), ..old(self)@ }),
            final(self).trace() == if old(self)@.cached.contains(id) {
                old(self).trace().push(call(id, Hook::Cleanup))
            } else {
                old(self).trace()
            },
    {
        let s = slot(id);
        let mut ctx = self.create_context();
        match self.pages[s].take() {
            Some(mut page) => {
                let cleaned = page.on_cleanup(&mut ctx);
                self.outbox.append(&mut ctx.outbox);
                proof {
                    self.trace@ = self.trace@.push(call(id, Hook::Cleanup));
                    self.answers@ = self.answers@.push(Gave::Dropped(cleaned));
                    self.handed@ = self.handed@.push(handed_with(Hook::Cleanup, self.window(), self.clock()));
                }
            },
            None => {},
        }
        proof {
            slots_differ();
            assert(self@.cached =~= old(self)@.cached.remove(id));
            assert(self@.builders =~= old(self)@.builders);
        }
    }

    /// Builds an instance of `id` with the registered builder.
    fn create_page(&mut self, id: PageId) -> (r: Result<Box<dyn Page>, PageError>)
        requires
            old(self).wf(),
        ensures
            old(self).unchanged_but_trace(final(self)),
            final(self).trace() == if old(self)@.builders.contains(id) {
                old(self).trace().push(call(id, Hook::Build))
            } else {
                old(self).trace()
            },
            !old(self)@.builders.contains(id) ==> lacks_builder(r, id),
            r is Err ==> final(self).trace().len() > old(self).trace().len() || lacks_builder(
                r,
                id,
            ),
            old(self)@.builders.contains(id) ==> stopped_at_failure(
                old(self).answers(),
                final(self).answers(),
                r,
            ),
    {
        let s = slot(id);
        let built = match &self.builders[s] {
            Some(builder) => builder.build(),
            None => {
                return Err(PageError::NotRegistered(id));
            },
        };
        proof {
            self.trace@ = self.trace@.push(call(id, Hook::Build));
            self.answers@ = self.answers@.push(Gave::Built(failure_of(built)));
            self.handed@ = self.handed@.push(handed_with(Hook::Build, self.window(), self.clock()));
        }
        built
    }

    /// Initialises and enters a new instance and, where both succeed, makes
    /// it the instance of `id` and `id` the active page.
    fn install_page(&mut self, id: PageId, page: Box<dyn Page>) -> (r: Result<(), PageError>)
        requires
            old(self).wf(),
        ensures
            final(self).wf(),
            final(self).window() == old(self).window(),
            final(self).clock() == old(self).clock(),
            extends_by(
                old(self).trace(),
                final(self).trace(),
                seq![call(id, Hook::Init), call(id, Hook::Enter)],
            ),
            old(self).trace().len() < final(self).trace().len(),
            old(self).keeps_record(final(self)),
            stopped_at_failure(old(self).answers(), final(self).answers(), r),
            r is Ok ==> final(self)@ == old(self)@.activated(id) && final(self).trace() == old(self).trace() + seq![call(id, Hook::Init), call(id, Hook::Enter)],
            r is Err ==> final(self)@ == old(self)@,
    {
        let ghost script = seq![call(id, Hook::Init), call(id, Hook::Enter)];
        let ghost before = self.trace();
        let mut page = page;
        let mut ctx = self.create_context();
        let initialised = page.on_init(&mut ctx);
        self.outbox.append(&mut ctx.outbox);
        proof {
            self.trace@ = self.trace@.push(call(id, Hook::Init));
            self.answers@ = self.answers@.push(Gave::Done(initialised));
            self.handed@ = self.handed@.push(handed_with(Hook::Init, self.window(), self.clock()));
            assert(self.trace() =~= before + script.take(1));
        }
        match initialised {
            Ok(()) => {},
            Err(e) => {
                return Err(e);
            },
        }
        let mut ctx = self.create_context();
        let entered = page.on_enter(&mut ctx);
        self.outbox.append(&mut ctx.outbox);
        proof {
            self.trace@ = self.trace@.push(call(id, Hook::Enter));
            self.answers@ = self.answers@.push(Gave::Done(entered));
            self.handed@ = self.handed@.push(handed_with(Hook::Enter, self.window(), self.clock()));
            assert(self.trace() =~= before + script);
            assert(script.take(2) =~= script);
        }
        match entered {
            Ok(()) => {},
            Err(e) => {
                return Err(e);
            },
        }
        let s = slot(id);
        self.pages[s] = Some(page);
        self.current_page_id = Some(id);
        proof {
            slots_differ();
            assert(self@.cached =~= old(self)@.cached.insert(id));
            assert(self@.builders =~= old(self)@.builders);
        }
        Ok(())
    }

    /// Makes `id` the active page: enters the instance that is there where
    /// the page keeps its instance, and builds a new one otherwise.
    fn activate(&mut self, id: PageId, resume: bool) -> (r: Result<(), PageError>)
        requires
            old(self).wf(),
        ensures
            final(self).wf(),
            final(self).window() == old(self).window(),
            final(self).clock() == old(self).clock(),
            extends_by(
                old(self).trace(),
                final(self).trace(),
                old(self)@.activate_script(id, resume),
            ),
            r is Ok ==> final(self)@ == old(self)@.activated(id) && final(self).trace() == old(self).trace() + old(self)@.activate_script(id, resume),
            r is Err ==> old(self)@.same_but_instance(final(self)@, id),
            !old(self)@.reuses(id) && !old(self)@.builders.contains(id) ==> lacks_builder(r, id),
            failure_explained(old(self).trace(), final(self).trace(), r, old(self)@, id),
            !old(self)@.refuses(id) && r is Err ==> final(self).trace().len() > old(self).trace().len(),
            !old(self)@.refuses(id) ==> stopped_at_failure(
                old(self).answers(),
                final(self).answers(),
                r,
            ),
            old(self).keeps_record(final(self)),
    {
        let ghost script = self@.activate_script(id, resume);
        let ghost before = self.trace();
        let config = self.get_page_config(id);
        if config.cache_enabled && self.has_page(id) {
            if resume {
                match self.run_hook(id, Hook::Resume) {
                    Ok(()) => {},
                    Err(e) => {
                        assert(self.trace() =~= before + script.take(1));
                        return Err(e);
                    },
                }
            }
            let ghost resumed = *self;
            let entered = self.run_hook(id, Hook::Enter);
            proof {
                old(self).keeps_calls_compose(&resumed, self);
            }
            assert(self.trace() =~= before + script);
            assert(script.take(script.len() as int) =~= script);
            match entered {
                Ok(()) => {},
                Err(e) => {
                    return Err(e);
                },
            }
            self.current_page_id = Some(id);
            assert(self@.cached =~= old(self)@.cached.insert(id));
            Ok(())
        } else {
            self.discard_page(id);
            let ghost dropped: int = if old(self)@.cached.contains(id) {
                1
            } else {
                0
            };
            assert(self.trace() =~= before + script.take(dropped));
            let ghost cleared = *self;
            let created = self.create_page(id);
            proof {
                old(self).keeps_calls_compose(&cleared, self);
            }
            let page = match created {
                Ok(page) => page,
                Err(e) => {
                    proof {
                        if old(self)@.builders.contains(id) {
                            assert(self.trace() =~= before + script.take(dropped + 1));
                        }
                    }
                    return Err(e);
                },
            };
            assert(self.trace() =~= before + script.take(dropped + 1));
            let ghost built = self.trace();
            let ghost held = self@;
            let ghost made = *self;
            let installed = self.install_page(id, page);
            proof {
                old(self).keeps_calls_compose(&made, self);
                let rest = seq![call(id, Hook::Init), call(id, Hook::Enter)];
                let ran = self.trace().len() - built.len();
                assert(self.trace() =~= before + script.take(dropped + 1 + ran)) by {
                    assert(script =~= script.take(dropped + 1) + rest);
                    assert(self.trace() == built + rest.take(ran));
                }
                if installed is Ok {
                    assert(held.activated(id).cached =~= old(self)@.activated(id).cached);
                    assert(script.take(script.len() as int) =~= script);
                }
            }
            installed
        }
    }

    /// Installs a page as the active one, without a builder: the active page
    /// is left, the new page is initialised and entered and takes the place
    /// of any instance that its identity had. A failure is that of a page
    /// that was called, and leaves the manager's state as it was.
    pub fn set_current_page(&mut self, page: Box<dyn Page>) -> (r: Result<(), PageError>)
        requires
            old(self).wf(),
        ensures
            final(self).wf(),
            final(self).window() == old(self).window(),
            final(self).clock() == old(self).clock(),
            old(self).keeps_record(final(self)),
            extends_by(
                old(self).trace(),
                final(self).trace(),
                old(self)@.install_script(page.identity()),
            ),
            final(self).trace().len() > old(self).trace().len(),
            stopped_at_failure(old(self).answers(), final(self).answers(), r),
            r is Ok ==> final(self)@ == old(self)@.activated(page.identity()) && final(self).trace()
                == old(self).trace() + old(self)@.install_script(page.identity()),
            r is Err ==> final(self)@ == old(self)@,
    {
        let page_id = page.id();
        let ghost script = self@.install_script(page_id);
        let ghost leave = self@.leave_script();
        let ghost before = self.trace();
        match self.leave_current() {
            Ok(()) => {},
            Err(e) => {
                proof {
                    let ran = self.trace().len() - before.len();
                    assert(script.take(ran) =~= leave.take(ran));
                }
                return Err(e);
            },
        }
        let ghost left = self.trace();
        let ghost heard = self.answers();
        let ghost gone = *self;
        let installed = self.install_page(page_id, page);
        proof {
            old(self).keeps_calls_compose(&gone, self);
            stops_compose(old(self).answers(), heard, self.answers(), installed);
            let rest = seq![call(page_id, Hook::Init), call(page_id, Hook::Enter)];
            let ran = self.trace().len() - left.len();
            assert(self.trace() =~= before + script.take(leave.len() + ran)) by {
                assert(self.trace() == left + rest.take(ran));
            }
            if installed is Ok {
                assert(script.take(script.len() as int) =~= script);
            }
        }
        installed
    }

    /// Switches to a page: the active page is left, then the instance of
    /// `id` is entered where the page keeps one, and a new instance is built,
    /// initialised and entered otherwise. Where a new instance is called for
    /// and the page has no builder, the switch is not begun: it fails with
    /// `NotRegistered` and nothing is called or changed.
    pub fn switch_to(&mut self, id: PageId) -> (r: Result<(), PageError>)
        requires
            old(self).wf(),
        ensures
            final(self).wf(),
            final(self).window() == old(self).window(),
            final(self).clock() == old(self).clock(),
            extends_by(old(self).trace(), final(self).trace(), old(self)@.switch_script(id)),
            r is Ok ==> final(self)@ == old(self)@.activated(id) && final(self).trace() == old(self).trace() + old(self)@.switch_script(id),
            r is Err ==> old(self)@.same_but_instance(final(self)@, id),
            old(self).aborts_or_runs(final(self), r, id),
            old(self).keeps_record(final(self)),
    {
        if self.is_refused(id) {
            assert(self.trace() =~= old(self).trace() + old(self)@.switch_script(id).take(0));
            return Err(PageError::NotRegistered(id));
        }
        let ghost script = self@.switch_script(id);
        let ghost leave = self@.leave_script();
        let ghost enter = self@.activate_script(id, false);
        let ghost before = self.trace();
        match self.leave_current() {
            Ok(()) => {},
            Err(e) => {
                proof {
                    let ran = self.trace().len() - before.len();
                    assert(script.take(ran) =~= leave.take(ran));
                }
                return Err(e);
            },
        }
        let ghost left = self.trace();
        let ghost heard = self.answers();
        let ghost gone = *self;
        let r = self.activate(id, false);
        proof {
            old(self).keeps_calls_compose(&gone, self);
            stops_compose(old(self).answers(), heard, self.answers(), r);
            let ran = self.trace().len() - left.len();
            assert(self.trace() =~= before + script.take(leave.len() + ran)) by {
                assert(self.trace() == left + enter.take(ran));
            }
            if r is Ok {
                assert(script.take(script.len() as int) =~= script);
            }
        }
        r
    }

    /// Pushes a page: the active page is paused and put on the stack, then
    /// the manager switches to `id`. Where `id` cannot be made active the
    /// push is not begun: it fails with `NotRegistered`, and the active page
    /// and the stack stay as they are. Any other failure is that of a page
    /// or builder that was called.
    pub fn push_page(&mut self, id: PageId) -> (r: Result<(), PageError>)
        requires
            old(self).wf(),
        ensures
            final(self).wf(),
            final(self).window() == old(self).window(),
            final(self).clock() == old(self).clock(),
            extends_by(old(self).trace(), final(self).trace(), old(self)@.push_script(id)),
            r is Ok ==> final(self)@ == old(self)@.pushed(id) && final(self).trace() == old(self).trace() + old(self)@.push_script(id),
            r is Err ==> final(self)@ == old(self)@ || old(self)@.suspended().same_but_instance(
                final(self)@,
                id,
            ),
            old(self).aborts_or_runs(final(self), r, id),
            old(self).keeps_record(final(self)),
    {
        if self.is_refused(id) {
            assert(self.trace() =~= old(self).trace() + old(self)@.push_script(id).take(0));
            return Err(PageError::NotRegistered(id));
        }
        let ghost script = self@.push_script(id);
        let ghost pause = self@.pause_script();
        let ghost switch = self@.switch_script(id);
        let ghost before = self.trace();
        match self.current_page_id {
            Some(current_id) => {
                match self.run_hook(current_id, Hook::Pause) {
                    Ok(()) => {},
                    Err(e) => {
                        assert(self.trace() =~= before + script.take(1));
                        return Err(e);
                    },
                }
                self.page_stack.push(current_id);
            },
            None => {},
        }
        assert(self.trace() =~= before + pause);
        assert(self@ == old(self)@.suspended());
        assert(self@.switch_script(id) == switch);
        let ghost paused = self.trace();
        let ghost stacked = *self;
        let r = self.switch_to(id);
        proof {
            old(self).keeps_calls_compose(&stacked, self);
            let ran = self.trace().len() - paused.len();
            assert(self.trace() =~= before + script.take(pause.len() + ran)) by {
                assert(self.trace() == paused + switch.take(ran));
            }
            if r is Ok {
                assert(script.take(script.len() as int) =~= script);
            }
        }
        r
    }

    /// Pops a page: the active page is left, and the page on top of the
    /// stack becomes active again. Its instance is resumed and entered where
    /// the page keeps one; otherwise a new instance is built, initialised
    /// and entered. Where the page on top of the stack cannot be made active
    /// the pop is not begun and fails with `NotRegistered`. With an empty
    /// stack the active page is left and stays the active page.
    pub fn pop_page(&mut self) -> (r: Result<(), PageError>)
        requires
            old(self).wf(),
        ensures
            final(self).wf(),
            final(self).window() == old(self).window(),
            final(self).clock() == old(self).clock(),
            extends_by(old(self).trace(), final(self).trace(), old(self)@.pop_script()),
            r is Ok ==> final(self)@ == old(self)@.popped() && final(self).trace() == old(self).trace() + old(self)@.pop_script(),
            r is Err ==> final(self)@ == old(self)@ || (old(self)@.stack.len() > 0 && old(self)@.unwound().same_but_instance(final(self)@, old(self)@.stack.last())),
            old(self)@.pop_script().len() == 0 ==> r is Ok,
            match old(self)@.target(PageTransition::Pop) {
                Some(page) => old(self).aborts_or_runs(final(self), r, page),
                None => (r is Err ==> final(self).trace().len() > old(self).trace().len())
                    && stopped_at_failure(old(self).answers(), final(self).answers(), r),
            },
            old(self).keeps_record(final(self)),
    {
        let depth = self.page_stack.len();
        if depth > 0 {
            let prev_id = self.page_stack[depth - 1];
            if self.is_refused(prev_id) {
                assert(self.trace() =~= old(self).trace() + old(self)@.pop_script().take(0));
                return Err(PageError::NotRegistered(prev_id));
            }
        }
        let ghost script = self@.pop_script();
        let ghost leave = self@.leave_script();
        let ghost before = self.trace();
        match self.leave_current() {
            Ok(()) => {},
            Err(e) => {
                proof {
                    let ran = self.trace().len() - before.len();
                    assert(script.take(ran) =~= leave.take(ran));
                }
                return Err(e);
            },
        }
        match self.page_stack.pop() {
            Some(prev_id) => {
                self.current_page_id = Some(prev_id);
                assert(self@ == old(self)@.unwound());
                let ghost enter = old(self)@.activate_script(prev_id, true);
                assert(self@.activate_script(prev_id, true) == enter);
                let ghost left = self.trace();
                let ghost heard = self.answers();
                let ghost gone = *self;
                let r = self.activate(prev_id, true);
                proof {
                    old(self).keeps_calls_compose(&gone, self);
                    stops_compose(old(self).answers(), heard, self.answers(), r);
                    let ran = self.trace().len() - left.len();
                    assert(self.trace() =~= before + script.take(leave.len() + ran)) by {
                        assert(self.trace() == left + enter.take(ran));
                    }
                    if r is Ok {
                        assert(script.take(script.len() as int) =~= script);
                    }
                }
                r
            },
            None => {
                assert(script.take(script.len() as int) =~= script);
                Ok(())
            },
        }
    }
}

impl PageManager {
    /// Whether `other` is this manager after one call of `hook` into the
    /// page that input, updates and frames go to, or this manager as it is
    /// where there is no such page.
    pub open spec fn delivered(&self, other: &PageManager, hook: Hook) -> bool {
        &&& self.unchanged_but_trace(other)
        &&& other.trace() == match self@.receiver() {
            Some(page) => self.trace().push(call(page, hook)),
            None => self.trace(),
        }
    }

    /// Hands an input to the active page and tells whether the page consumed
    /// it. Without an active page nothing is consumed.
    pub fn handle_input_consumed(&mut self, msg: &InputMsg) -> (r: Result<bool, PageError>)
        requires
            old(self).wf(),
        ensures
            old(self).delivered(final(self), Hook::Input),
            match old(self)@.receiver() {
                Some(_) => final(self).answers() == old(self).answers().push(Gave::Consumed(r)),
                None => r == Ok::<bool, PageError>(false) && old(self).untouched(final(self)),
            },
    {
        let id = match self.current_page_id {
            Some(id) => id,
            None => {
                return Ok(false);
            },
        };
        let s = slot(id);
        let mut ctx = self.create_context();
        match self.pages[s].take() {
            Some(mut page) => {
                let r = page.on_input(msg, &mut ctx);
                self.pages[s] = Some(page);
                self.outbox.append(&mut ctx.outbox);
                proof {
                    self.trace@ = self.trace@.push(call(id, Hook::Input));
                    self.answers@ = self.answers@.push(Gave::Consumed(r));
                    self.handed@ = self.handed@.push(handed_with(Hook::Input, self.window(), self.clock()));
                    slots_differ();
                    assert(self@.cached =~= old(self)@.cached);
                    assert(self@.builders =~= old(self)@.builders);
                }
                r
            },
            None => {
                proof {
                    slots_differ();
                    assert(self@.cached =~= old(self)@.cached);
                    assert(self@.builders =~= old(self)@.builders);
                }
                Ok(false)
            },
        }
    }

    /// Hands an input to the active page; fails where the page does.
    pub fn handle_input(&mut self, msg: &InputMsg) -> (r: Result<(), PageError>)
        requires
            old(self).wf(),
        ensures
            old(self).delivered(final(self), Hook::Input),
            match old(self)@.receiver() {
                Some(_) => {
                    &&& final(self).answers() == old(self).answers().push(
                        final(self).answers().last(),
                    )
                    &&& match final(self).answers().last() {
                        Gave::Consumed(Ok(_)) => r is Ok,
                        Gave::Consumed(Err(e)) => r == Err::<(), PageError>(e),
                        _ => false,
                    }
                },
                None => r is Ok && old(self).untouched(final(self)),
            },
    {
        match self.handle_input_consumed(msg) {
            Ok(_) => Ok(()),
            Err(e) => Err(e),
        }
    }

    /// Carries out what a page asked for after an update, and tells whether
    /// the application goes on: it does unless the page asked to exit.
    pub fn apply_transition(&mut self, transition: PageTransition) -> (r: Result<bool, PageError>)
        requires
            old(self).wf(),
        ensures
            final(self).wf(),
            final(self).window() == old(self).window(),
            final(self).clock() == old(self).clock(),
            carried_out(
                final(self),
                old(self)@,
                old(self).trace(),
                old(self).answers(),
                transition,
                r,
            ),
            r is Err ==> final(self)@.cache_enabled == old(self)@.cache_enabled && final(self)@.builders
                == old(self)@.builders,
            old(self).keeps_record(final(self)),
    {
        match transition {
            PageTransition::Stay => {
                assert(self.trace() =~= old(self).trace() + Seq::<HookCall>::empty().take(0));
                assert(self.trace() =~= old(self).trace() + Seq::<HookCall>::empty());
                Ok(true)
            },
            PageTransition::Switch(id) => {
                match self.switch_to(id) {
                    Ok(()) => Ok(true),
                    Err(e) => Err(e),
                }
            },
            PageTransition::Push(id) => {
                match self.push_page(id) {
                    Ok(()) => Ok(true),
                    Err(e) => Err(e),
                }
            },
            PageTransition::Pop => {
                match self.pop_page() {
                    Ok(()) => Ok(true),
                    Err(e) => Err(e),
                }
            },
            PageTransition::Exit => {
                assert(self.trace() =~= old(self).trace() + Seq::<HookCall>::empty().take(0));
                assert(self.trace() =~= old(self).trace() + Seq::<HookCall>::empty());
                Ok(false)
            },
        }
    }

    /// Updates the active page with the time since the last update and
    /// carries out the transition that it asks for. Tells whether the
    /// application goes on. A failure of the page's update is handed on and
    /// leaves the manager's state as it was. Without an active page nothing
    /// happens but that the time of the update is taken down.
    pub fn update(&mut self) -> (r: Result<bool, PageError>)
        requires
            old(self).wf(),
        ensures
            final(self).wf(),
            final(self).window() == old(self).window(),
            final(self).clock() == old(self).clock(),
            final(self).last_update() == old(self).clock(),
            old(self).keeps_calls(final(self)),
            match old(self)@.receiver() {
                Some(page) => {
                    let updated = old(self).trace().push(call(page, Hook::Update));
                    &&& updated.is_prefix_of(final(self).trace())
                    &&& final(self).answers().len() > old(self).answers().len()
                    &&& final(self)@.cache_enabled == old(self)@.cache_enabled
                    &&& final(self)@.builders == old(self)@.builders
                    &&& match final(self).answers()[old(self).answers().len() as int] {
                        Gave::Asked { dt, answer } => {
                            &&& dt == elapsed(old(self).clock(), old(self).last_update())
                            &&& match answer {
                                Ok(transition) => carried_out(
                                    final(self),
                                    old(self)@,
                                    updated,
                                    old(self).answers().push(Gave::Asked { dt, answer }),
                                    transition,
                                    r,
                                ),
                                Err(e) => {
                                    &&& r == Err::<bool, PageError>(e)
                                    &&& final(self)@ == old(self)@
                                    &&& final(self).trace() == updated
                                },
                            }
                        },
                        _ => false,
                    }
                },
                None => {
                    &&& r == Ok::<bool, PageError>(true)
                    &&& final(self)@ == old(self)@
                    &&& final(self).trace() == old(self).trace()
                    &&& final(self).answers() == old(self).answers()
                    &&& final(self).pending() == old(self).pending()
                },
            },
            r == Ok::<bool, PageError>(false) ==> final(self)@ == old(self)@,
    {
        let dt: u64 = if self.now >= self.last_frame_time {
            self.now - self.last_frame_time
        } else {
            0
        };
        self.last_frame_time = self.now;
        let id = match self.current_page_id {
            Some(id) => id,
            None => {
                return Ok(true);
            },
        };
        let s = slot(id);
        let mut ctx = self.create_context();
        let asked = match self.pages[s].take() {
            Some(mut page) => {
                let asked = page.on_update(dt, &mut ctx);
                self.pages[s] = Some(page);
                self.outbox.append(&mut ctx.outbox);
                proof {
                    self.trace@ = self.trace@.push(call(id, Hook::Update));
                    self.answers@ = self.answers@.push(Gave::Asked { dt, answer: asked });
                    self.handed@ = self.handed@.push(handed_with(Hook::Update, self.window(), self.clock()));
                    slots_differ();
                    assert(self@.cached =~= old(self)@.cached);
                    assert(self@.builders =~= old(self)@.builders);
                }
                asked
            },
            None => {
                proof {
                    slots_differ();
                    assert(self@.cached =~= old(self)@.cached);
                    assert(self@.builders =~= old(self)@.builders);
                }
                return Ok(true);
            },
        };
        match asked {
            Ok(transition) => {
                let ghost told = self.answers();
                let ghost asked_page = *self;
                let r = self.apply_transition(transition);
                proof {
                    old(self).keeps_calls_compose(&asked_page, self);
                    let at = old(self).answers().len() as int;
                    assert(told == old(self).answers().push(Gave::Asked { dt, answer: asked }));
                    assert(self.answers()[at] == told[at]);
                    assert(old(self).trace().push(call(id, Hook::Update)).is_prefix_of(
                        self.trace(),
                    ));
                }
                r
            },
            Err(e) => Err(e),
        }
    }

    /// The rectangles of the active page's next frame; none without an
    /// active page.
    pub fn render(&mut self) -> (instances: Vec<Instance>)
        requires
            old(self).wf(),
        ensures
            old(self).delivered(final(self), Hook::Render),
            match old(self)@.receiver() {
                Some(_) => final(self).answers() == old(self).answers().push(
                    Gave::Drawn(instances@),
                ),
                None => instances@.len() == 0 && old(self).untouched(final(self)),
            },
    {
        let id = match self.current_page_id {
            Some(id) => id,
            None => {
                return Vec::new();
            },
        };
        let s = slot(id);
        let mut ctx = self.create_context();
        match self.pages[s].take() {
            Some(mut page) => {
                let instances = page.on_render(&mut ctx);
                self.pages[s] = Some(page);
                self.outbox.append(&mut ctx.outbox);
                proof {
                    self.trace@ = self.trace@.push(call(id, Hook::Render));
                    self.answers@ = self.answers@.push(Gave::Drawn(instances@));
                    self.handed@ = self.handed@.push(handed_with(Hook::Render, self.window(), self.clock()));
                    slots_differ();
                    assert(self@.cached =~= old(self)@.cached);
                    assert(self@.builders =~= old(self)@.builders);
                }
                instances
            },
            None => {
                proof {
                    slots_differ();
                    assert(self@.cached =~= old(self)@.cached);
                    assert(self@.builders =~= old(self)@.builders);
                }
                Vec::new()
            },
        }
    }

    /// Records the new size of the window and tells the active page.
    pub fn resize(&mut self, width: u32, height: u32) -> (r: Result<(), PageError>)
        requires
            old(self).wf(),
        ensures
            final(self).wf(),
            final(self)@ == old(self)@,
            final(self).clock() == old(self).clock(),
            final(self).window() == (width, height),
            final(self).trace() == match old(self)@.receiver() {
                Some(page) => old(self).trace().push(call(page, Hook::Resize)),
                None => old(self).trace(),
            },
            old(self).keeps_record(final(self)),
            match old(self)@.receiver() {
                Some(_) => final(self).answers() == old(self).answers().push(Gave::Done(r)),
                None => r is Ok && final(self).answers() == old(self).answers() && final(self).pending() == old(self).pending(),
            },
    {
        self.window_size = (width, height);
        match self.current_page_id {
            Some(id) => self.run_hook(id, Hook::Resize),
            None => Ok(()),
        }
    }
}

/// The calls of two lists joined are those of the one and those of the
/// other.
pub proof fn occurrences_add(first: Seq<HookCall>, second: Seq<HookCall>, wanted: HookCall)
    ensures
        occurrences(first + second, wanted) == occurrences(first, wanted) + occurrences(
            second,
            wanted,
        ),
    decreases second.len(),
{
    if second.len() == 0 {
        assert(first + second =~= first);
    } else {
        assert((first + second).drop_last() =~= first + second.drop_last());
        assert((first + second).last() == second.last());
        occurrences_add(first, second.drop_last(), wanted);
    }
}

/// A push followed by a pop returns to the page that was active: it is the
/// active page again, the stack is as it was, and the pop enters the page
/// exactly once. Where the page keeps its instance, neither the push nor
/// the pop builds an instance of it, so that the instance that was active
/// is in use again; where it does not, the pop cleans the old instance up
/// and builds a new one, once.
pub proof fn push_then_pop_restores(before: ManagerView, page: PageId, pushed: PageId)
    requires
        before.current == Some(page),
        before.cached.contains(page),
    ensures
        before.pushed(pushed).popped().current == Some(page),
        before.pushed(pushed).popped().stack == before.stack,
        before.pushed(pushed).popped().cached == before.cached.insert(pushed),
        occurrences(before.pushed(pushed).pop_script(), call(page, Hook::Enter)) == 1,
        before.cache_enabled.contains(page) ==> {
            &&& occurrences(before.push_script(pushed), call(page, Hook::Build)) == 0
            &&& occurrences(before.pushed(pushed).pop_script(), call(page, Hook::Build)) == 0
            &&& occurrences(before.pushed(pushed).pop_script(), call(page, Hook::Resume)) == 1
        },
        !before.cache_enabled.contains(page) ==> {
            &&& occurrences(before.pushed(pushed).pop_script(), call(page, Hook::Cleanup)) >= 1
            &&& occurrences(before.pushed(pushed).pop_script(), call(page, Hook::Build)) == 1
            &&& occurrences(before.pushed(pushed).pop_script(), call(page, Hook::Init)) == 1
        },
{
    let during = before.pushed(pushed);
    let after = during.popped();
    assert(during.stack.last() == page);
    assert(during.stack.drop_last() =~= before.stack);
    assert(after.cached =~= before.cached.insert(pushed));
    let leave = during.leave_script();
    let enter = during.activate_script(page, true);
    assert(during.pop_script() == leave + enter);
    assert(leave == during.leave_script_of(pushed));
    assert(during.cached.contains(page));
    assert(during.cache_enabled == before.cache_enabled);
    assert forall|hook: Hook| #[trigger]
        occurrences(during.pop_script(), call(page, hook)) == occurrences(
            leave,
            call(page, hook),
        ) + occurrences(enter, call(page, hook)) by {
        occurrences_add(leave, enter, call(page, hook));
    }
    leave_calls(during, pushed, call(page, Hook::Enter));
    leave_calls(during, pushed, call(page, Hook::Build));
    leave_calls(during, pushed, call(page, Hook::Resume));
    leave_calls(during, pushed, call(page, Hook::Init));
    activate_calls(during, page, true, Hook::Enter);
    activate_calls(during, page, true, Hook::Build);
    activate_calls(during, page, true, Hook::Resume);
    activate_calls(during, page, true, Hook::Init);
    activate_calls(during, page, true, Hook::Cleanup);
    if before.cache_enabled.contains(page) {
        let wanted = call(page, Hook::Build);
        occurrences_add(before.pause_script(), before.switch_script(pushed), wanted);
        occurrences_add(before.leave_script(), before.activate_script(pushed, false), wanted);
        count_in_short(before.pause_script(), wanted);
        leave_calls(before, page, wanted);
        if pushed == page {
            activate_calls(before, page, false, Hook::Build);
        } else {
            count_in_short(before.activate_script(pushed, false), wanted);
        }
    }
}

/// The calls of a pop that follows a push, in their order: the pushed page
/// is left, and cleaned up unless it keeps its instance; then the page below
/// is resumed and entered where it keeps its instance, and cleaned up,
/// built anew, initialised and entered where it does not.
pub proof fn pop_after_push_calls(before: ManagerView, page: PageId, pushed: PageId)
    requires
        before.current == Some(page),
        before.cached.contains(page),
    ensures
        before.pushed(pushed).pop_script() == (if before.cache_enabled.contains(pushed) {
            seq![call(pushed, Hook::Leave)]
        } else {
            seq![call(pushed, Hook::Leave), call(pushed, Hook::Cleanup)]
        }) + (if before.cache_enabled.contains(page) {
            seq![call(page, Hook::Resume), call(page, Hook::Enter)]
        } else {
            seq![
                call(page, Hook::Cleanup),
                call(page, Hook::Build),
                call(page, Hook::Init),
                call(page, Hook::Enter),
            ]
        }),
{
    let during = before.pushed(pushed);
    assert(during.stack.last() == page);
    assert(during.cached.contains(page));
    assert(during.cached.contains(pushed));
    assert(during.cache_enabled == before.cache_enabled);
}

/// Leaving a page makes no call but `on_leave` and `on_cleanup`.
proof fn leave_calls(held: ManagerView, page: PageId, wanted: HookCall)
    requires
        wanted.hook != Hook::Leave,
        wanted.hook != Hook::Cleanup || wanted.page != page,
    ensures
        occurrences(held.leave_script_of(page), wanted) == 0,
{
    count_in_short(held.leave_script_of(page), wanted);
}

/// How often making a page active calls each hook of the page.
proof fn activate_calls(held: ManagerView, page: PageId, resume: bool, hook: Hook)
    ensures
        occurrences(held.activate_script(page, resume), call(page, hook)) == (if hook
            == Hook::Enter {
            1nat
        } else if hook == Hook::Resume {
            if held.reuses(page) && resume {
                1nat
            } else {
                0nat
            }
        } else if hook == Hook::Build || hook == Hook::Init {
            if held.reuses(page) {
                0nat
            } else {
                1nat
            }
        } else if hook == Hook::Cleanup {
            if !held.reuses(page) && held.cached.contains(page) {
                1nat
            } else {
                0nat
            }
        } else {
            0nat
        }),
{
    count_in_short(held.activate_script(page, resume), call(page, hook));
}

/// In a list of at most four calls a call stands as often as it stands in
/// the four places.
proof fn count_in_short(calls: Seq<HookCall>, wanted: HookCall)
    requires
        calls.len() <= 4,
    ensures
        occurrences(calls, wanted) == (if calls.len() > 0 && calls[0] == wanted {
            1nat
        } else {
            0nat
        }) + (if calls.len() > 1 && calls[1] == wanted {
            1nat
        } else {
            0nat
        }) + (if calls.len() > 2 && calls[2] == wanted {
            1nat
        } else {
            0nat
        }) + (if calls.len() > 3 && calls[3] == wanted {
            1nat
        } else {
            0nat
        }),
    decreases calls.len(),
{
    if calls.len() > 0 {
        count_in_short(calls.drop_last(), wanted);
    }
}

} // verus!
