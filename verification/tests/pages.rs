use std::cell::RefCell;
use std::rc::Rc;

use nebula_tunes::loops::{Effect, InputMsg, Instance, SystemKey, VisualMsg};
use nebula_tunes::pages::{
    Page, PageBuilder, PageConfig, PageContext, PageError, PageEvent, PageId, PageManager,
    PageTransition,
};

type Log = Rc<RefCell<Vec<String>>>;

struct Probe {
    id: PageId,
    serial: u32,
    log: Log,
    fail_on: Option<&'static str>,
    next: Rc<RefCell<Option<PageTransition>>>,
}

impl Probe {
    fn note(&self, what: &str) -> Result<(), PageError> {
        self.log
            .borrow_mut()
            .push(format!("{:?}#{} {}", self.id, self.serial, what));
        if self.fail_on == Some(what) {
            Err(PageError::Failed(what.to_string()))
        } else {
            Ok(())
        }
    }
}

impl Page for Probe {
    fn id(&self) -> PageId {
        self.id
    }

    fn on_init(&mut self, _ctx: &mut PageContext) -> Result<(), PageError> {
        self.note("init")
    }

    fn on_enter(&mut self, ctx: &mut PageContext) -> Result<(), PageError> {
        ctx.outbox.push(Effect::Visual(VisualMsg::BgaPoorTrigger));
        self.note("enter")
    }

    fn on_leave(&mut self, _ctx: &mut PageContext) -> Result<(), PageError> {
        self.note("leave")
    }

    fn on_input(&mut self, msg: &InputMsg, _ctx: &mut PageContext) -> Result<bool, PageError> {
        self.note("input")?;
        Ok(matches!(msg, InputMsg::KeyDown(_)))
    }

    fn on_update(&mut self, dt: u64, ctx: &mut PageContext) -> Result<PageTransition, PageError> {
        self.note(&format!("update dt={} now={}", dt, ctx.now))?;
        Ok(self.next.borrow_mut().take().unwrap_or(PageTransition::Stay))
    }

    fn on_render(&mut self, ctx: &mut PageContext) -> Vec<Instance> {
        let _ = self.note("render");
        vec![Instance {
            pos: [ctx.window_size.0 as i64, ctx.window_size.1 as i64],
            size: [1, 1],
            color: [0, 0, 0, 100],
        }]
    }

    fn on_event(&mut self, event: PageEvent, _ctx: &mut PageContext) -> Result<(), PageError> {
        match event {
            PageEvent::Pause => self.note("pause"),
            PageEvent::Resume => self.note("resume"),
            PageEvent::Resize { width, height } => self.note(&format!("resize {}x{}", width, height)),
            _ => self.note("event"),
        }
    }

    fn on_cleanup(&mut self, _ctx: &mut PageContext) -> Result<(), PageError> {
        self.note("cleanup")
    }
}

struct ProbeBuilder {
    id: PageId,
    log: Log,
    built: RefCell<u32>,
    fail_on: Option<&'static str>,
    next: Rc<RefCell<Option<PageTransition>>>,
}

impl PageBuilder for ProbeBuilder {
    fn build(&self) -> Result<Box<dyn Page>, PageError> {
        *self.built.borrow_mut() += 1;
        let serial = *self.built.borrow();
        self.log.borrow_mut().push(format!("{:?} build", self.id));
        if self.fail_on == Some("build") {
            return Err(PageError::Failed("build".to_string()));
        }
        Ok(Box::new(Probe {
            id: self.id,
            serial,
            log: self.log.clone(),
            fail_on: self.fail_on,
            next: self.next.clone(),
        }))
    }

    fn page_id(&self) -> PageId {
        self.id
    }
}

struct Rig {
    manager: PageManager,
    log: Log,
    next: Rc<RefCell<Option<PageTransition>>>,
}

fn rig(ids: &[PageId]) -> Rig {
    let log: Log = Rc::new(RefCell::new(Vec::new()));
    let next = Rc::new(RefCell::new(None));
    let mut manager = PageManager::new();
    for id in ids {
        manager
            .register_builder(Box::new(ProbeBuilder {
                id: *id,
                log: log.clone(),
                built: RefCell::new(0),
                fail_on: None,
                next: next.clone(),
            }))
            .unwrap();
    }
    Rig { manager, log, next }
}

fn take(log: &Log) -> Vec<String> {
    log.borrow_mut().drain(..).collect()
}

fn lines(list: &[&str]) -> Vec<String> {
    list.iter().map(|s| s.to_string()).collect()
}

#[test]
fn new_manager_is_empty() {
    let mut manager = PageManager::new();
    assert_eq!(manager.current_page(), None);
    assert_eq!(manager.stack_depth(), 0);
    assert!(!manager.has_page(PageId::Title));
    assert!(manager.get_page_config(PageId::Game).cache_enabled);
    assert!(PageConfig::default().cache_enabled);
    assert!(manager.render().is_empty());
    assert_eq!(manager.update(), Ok(true));
    assert_eq!(manager.handle_input(&InputMsg::KeyDown(0)), Ok(()));
    assert_eq!(manager.handle_input_consumed(&InputMsg::KeyDown(0)), Ok(false));
    assert_eq!(manager.resize(10, 10), Ok(()));
    assert_eq!(manager.pop_page(), Ok(()));
    assert!(manager.take_effects().is_empty());
}

#[test]
fn switch_builds_initialises_and_enters() {
    let mut r = rig(&[PageId::Title, PageId::Settings]);
    assert_eq!(r.manager.switch_to(PageId::Title), Ok(()));
    assert_eq!(take(&r.log), lines(&["Title build", "Title#1 init", "Title#1 enter"]));
    assert_eq!(r.manager.current_page(), Some(PageId::Title));
    assert!(r.manager.has_page(PageId::Title));
    assert_eq!(r.manager.switch_to(PageId::Settings), Ok(()));
    assert_eq!(
        take(&r.log),
        lines(&["Title#1 leave", "Settings build", "Settings#1 init", "Settings#1 enter"])
    );
    assert_eq!(r.manager.switch_to(PageId::Title), Ok(()));
    assert_eq!(take(&r.log), lines(&["Settings#1 leave", "Title#1 enter"]));
    assert_eq!(r.manager.current_page(), Some(PageId::Title));
    assert_eq!(r.manager.stack_depth(), 0);
}

#[test]
fn page_without_cache_is_cleaned_up_and_rebuilt() {
    let mut r = rig(&[PageId::Title, PageId::Settings]);
    r.manager
        .set_page_config(PageId::Settings, PageConfig { cache_enabled: false });
    assert!(!r.manager.get_page_config(PageId::Settings).cache_enabled);
    r.manager.switch_to(PageId::Settings).unwrap();
    assert_eq!(
        take(&r.log),
        lines(&["Settings build", "Settings#1 init", "Settings#1 enter"])
    );
    r.manager.switch_to(PageId::Title).unwrap();
    assert_eq!(
        take(&r.log),
        lines(&[
            "Settings#1 leave",
            "Settings#1 cleanup",
            "Title build",
            "Title#1 init",
            "Title#1 enter"
        ])
    );
    r.manager.switch_to(PageId::Settings).unwrap();
    assert_eq!(
        take(&r.log),
        lines(&[
            "Title#1 leave",
            "Settings#1 cleanup",
            "Settings build",
            "Settings#2 init",
            "Settings#2 enter"
        ])
    );
}

#[test]
fn unregistered_page_is_an_error() {
    let mut r = rig(&[PageId::Title]);
    assert_eq!(
        r.manager.switch_to(PageId::Result),
        Err(PageError::NotRegistered(PageId::Result))
    );
    assert_eq!(r.manager.current_page(), None);
    r.manager.switch_to(PageId::Title).unwrap();
    take(&r.log);
    assert_eq!(
        r.manager.switch_to(PageId::SongSelect),
        Err(PageError::NotRegistered(PageId::SongSelect))
    );
    assert!(take(&r.log).is_empty());
    assert_eq!(r.manager.current_page(), Some(PageId::Title));
    assert_eq!(
        r.manager.push_page(PageId::Game),
        Err(PageError::NotRegistered(PageId::Game))
    );
    assert!(take(&r.log).is_empty());
    assert_eq!(r.manager.current_page(), Some(PageId::Title));
    assert_eq!(r.manager.stack_depth(), 0);
    assert!(r.manager.take_effects().len() == 1);
}

#[test]
fn push_then_pop_returns_to_the_kept_instance() {
    let mut r = rig(&[PageId::Title, PageId::Settings]);
    r.manager.switch_to(PageId::Title).unwrap();
    take(&r.log);
    assert_eq!(r.manager.push_page(PageId::Settings), Ok(()));
    assert_eq!(
        take(&r.log),
        lines(&[
            "Title#1 pause",
            "Title#1 leave",
            "Settings build",
            "Settings#1 init",
            "Settings#1 enter"
        ])
    );
    assert_eq!(r.manager.current_page(), Some(PageId::Settings));
    assert_eq!(r.manager.stack_depth(), 1);
    assert_eq!(r.manager.pop_page(), Ok(()));
    assert_eq!(
        take(&r.log),
        lines(&["Settings#1 leave", "Title#1 resume", "Title#1 enter"])
    );
    assert_eq!(r.manager.current_page(), Some(PageId::Title));
    assert_eq!(r.manager.stack_depth(), 0);
}

#[test]
fn push_then_pop_rebuilds_a_page_without_cache() {
    let mut r = rig(&[PageId::Title, PageId::Settings]);
    r.manager
        .set_page_config(PageId::Title, PageConfig { cache_enabled: false });
    r.manager.switch_to(PageId::Title).unwrap();
    take(&r.log);
    r.manager.push_page(PageId::Settings).unwrap();
    assert_eq!(
        take(&r.log),
        lines(&[
            "Title#1 pause",
            "Title#1 leave",
            "Title#1 cleanup",
            "Settings build",
            "Settings#1 init",
            "Settings#1 enter"
        ])
    );
    r.manager.pop_page().unwrap();
    assert_eq!(
        take(&r.log),
        lines(&[
            "Settings#1 leave",
            "Title#1 cleanup",
            "Title build",
            "Title#2 init",
            "Title#2 enter"
        ])
    );
    assert_eq!(r.manager.current_page(), Some(PageId::Title));
    assert_eq!(r.manager.stack_depth(), 0);
}

#[test]
fn pop_with_an_empty_stack_leaves_the_page() {
    let mut r = rig(&[PageId::Title]);
    r.manager.switch_to(PageId::Title).unwrap();
    take(&r.log);
    assert_eq!(r.manager.pop_page(), Ok(()));
    assert_eq!(take(&r.log), lines(&["Title#1 leave"]));
    assert_eq!(r.manager.current_page(), Some(PageId::Title));
}

#[test]
fn installed_page_replaces_the_active_one() {
    let mut r = rig(&[PageId::Title]);
    r.manager.switch_to(PageId::Title).unwrap();
    take(&r.log);
    let page = Probe {
        id: PageId::Game,
        serial: 9,
        log: r.log.clone(),
        fail_on: None,
        next: r.next.clone(),
    };
    assert_eq!(r.manager.set_current_page(Box::new(page)), Ok(()));
    assert_eq!(take(&r.log), lines(&["Title#1 leave", "Game#9 init", "Game#9 enter"]));
    assert_eq!(r.manager.current_page(), Some(PageId::Game));
    assert!(r.manager.has_page(PageId::Game));
    assert!(r.manager.has_page(PageId::Title));
}

#[test]
fn failing_hook_stops_the_transition() {
    let mut r = rig(&[PageId::Title]);
    r.manager.switch_to(PageId::Title).unwrap();
    take(&r.log);
    r.manager
        .register_builder(Box::new(ProbeBuilder {
            id: PageId::Result,
            log: r.log.clone(),
            built: RefCell::new(0),
            fail_on: Some("init"),
            next: r.next.clone(),
        }))
        .unwrap();
    assert_eq!(
        r.manager.switch_to(PageId::Result),
        Err(PageError::Failed("init".to_string()))
    );
    assert_eq!(take(&r.log), lines(&["Title#1 leave", "Result build", "Result#1 init"]));
    assert_eq!(r.manager.current_page(), Some(PageId::Title));
    assert!(!r.manager.has_page(PageId::Result));

    let failing = Probe {
        id: PageId::Game,
        serial: 1,
        log: r.log.clone(),
        fail_on: Some("enter"),
        next: r.next.clone(),
    };
    assert_eq!(
        r.manager.set_current_page(Box::new(failing)),
        Err(PageError::Failed("enter".to_string()))
    );
    assert_eq!(r.manager.current_page(), Some(PageId::Title));
    assert!(!r.manager.has_page(PageId::Game));
}

#[test]
fn update_applies_the_transition_that_the_page_asks_for() {
    let mut r = rig(&[PageId::Title, PageId::Settings]);
    r.manager.switch_to(PageId::Title).unwrap();
    take(&r.log);
    r.manager.set_time(1_000);
    assert_eq!(r.manager.update(), Ok(true));
    assert_eq!(take(&r.log), lines(&["Title#1 update dt=1000 now=1000"]));
    r.manager.set_time(1_016);
    *r.next.borrow_mut() = Some(PageTransition::Push(PageId::Settings));
    assert_eq!(r.manager.update(), Ok(true));
    assert_eq!(r.manager.current_page(), Some(PageId::Settings));
    assert_eq!(r.manager.stack_depth(), 1);
    assert_eq!(take(&r.log)[0], "Title#1 update dt=16 now=1016");
    *r.next.borrow_mut() = Some(PageTransition::Pop);
    assert_eq!(r.manager.update(), Ok(true));
    assert_eq!(r.manager.current_page(), Some(PageId::Title));
    *r.next.borrow_mut() = Some(PageTransition::Switch(PageId::Settings));
    assert_eq!(r.manager.update(), Ok(true));
    assert_eq!(r.manager.current_page(), Some(PageId::Settings));
    *r.next.borrow_mut() = Some(PageTransition::Exit);
    assert_eq!(r.manager.update(), Ok(false));
    assert_eq!(r.manager.current_page(), Some(PageId::Settings));
    *r.next.borrow_mut() = Some(PageTransition::Switch(PageId::Game));
    assert_eq!(r.manager.update(), Err(PageError::NotRegistered(PageId::Game)));
}

#[test]
fn transitions_can_be_applied_directly() {
    let mut r = rig(&[PageId::Title, PageId::Settings]);
    assert_eq!(r.manager.apply_transition(PageTransition::Stay), Ok(true));
    assert_eq!(r.manager.apply_transition(PageTransition::Exit), Ok(false));
    assert_eq!(
        r.manager.apply_transition(PageTransition::Switch(PageId::Title)),
        Ok(true)
    );
    assert_eq!(
        r.manager.apply_transition(PageTransition::Push(PageId::Settings)),
        Ok(true)
    );
    assert_eq!(r.manager.stack_depth(), 1);
    assert_eq!(r.manager.apply_transition(PageTransition::Pop), Ok(true));
    assert_eq!(r.manager.current_page(), Some(PageId::Title));
}

#[test]
fn input_render_and_resize_go_to_the_active_page() {
    let mut r = rig(&[PageId::Title]);
    r.manager.switch_to(PageId::Title).unwrap();
    take(&r.log);
    assert_eq!(r.manager.handle_input_consumed(&InputMsg::KeyDown(2)), Ok(true));
    assert_eq!(
        r.manager.handle_input_consumed(&InputMsg::SystemKey(SystemKey::Escape)),
        Ok(false)
    );
    assert_eq!(r.manager.handle_input(&InputMsg::KeyUp(2)), Ok(()));
    let frame = r.manager.render();
    assert_eq!(frame.len(), 1);
    assert_eq!(frame[0].pos, [1920, 1080]);
    assert_eq!(r.manager.resize(800, 600), Ok(()));
    assert_eq!(r.manager.render()[0].pos, [800, 600]);
    assert_eq!(
        take(&r.log),
        lines(&[
            "Title#1 input",
            "Title#1 input",
            "Title#1 input",
            "Title#1 render",
            "Title#1 resize 800x600",
            "Title#1 render"
        ])
    );
}

#[test]
fn effects_of_the_hooks_are_handed_out_in_order() {
    let mut r = rig(&[PageId::Title, PageId::Settings]);
    r.manager.switch_to(PageId::Title).unwrap();
    r.manager.push_page(PageId::Settings).unwrap();
    assert_eq!(
        r.manager.take_effects(),
        vec![
            Effect::Visual(VisualMsg::BgaPoorTrigger),
            Effect::Visual(VisualMsg::BgaPoorTrigger)
        ]
    );
    assert!(r.manager.take_effects().is_empty());
}

#[test]
fn pop_to_a_page_that_cannot_be_rebuilt_is_not_begun() {
    let mut r = rig(&[PageId::Settings]);
    r.manager
        .set_page_config(PageId::Game, PageConfig { cache_enabled: false });
    let page = Probe {
        id: PageId::Game,
        serial: 1,
        log: r.log.clone(),
        fail_on: None,
        next: r.next.clone(),
    };
    r.manager.set_current_page(Box::new(page)).unwrap();
    r.manager.push_page(PageId::Settings).unwrap();
    take(&r.log);
    assert_eq!(
        r.manager.pop_page(),
        Err(PageError::NotRegistered(PageId::Game))
    );
    assert!(take(&r.log).is_empty());
    assert_eq!(r.manager.current_page(), Some(PageId::Settings));
    assert_eq!(r.manager.stack_depth(), 1);
}

#[test]
fn update_hands_on_the_failure_of_the_page() {
    let mut r = rig(&[]);
    let page = Probe {
        id: PageId::Game,
        serial: 1,
        log: r.log.clone(),
        fail_on: Some("update dt=7 now=7"),
        next: r.next.clone(),
    };
    r.manager.set_current_page(Box::new(page)).unwrap();
    r.manager.set_time(7);
    assert_eq!(
        r.manager.update(),
        Err(PageError::Failed("update dt=7 now=7".to_string()))
    );
    assert_eq!(r.manager.current_page(), Some(PageId::Game));
    r.manager.set_time(5);
    assert_eq!(r.manager.update(), Ok(true));
    assert_eq!(take(&r.log).last().unwrap(), "Game#1 update dt=0 now=5");
}
