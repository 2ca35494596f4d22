//! The session: the page stack, the history and the rules by which one event
//! after another changes them.
//!
//! The session does no work outside itself. Each step takes one event and
//! returns at most one [`Effect`] for the caller to carry out: to draw, to
//! start background work, to fire the cancellation signal.

use vstd::prelude::*;
use crate::actions::{Actions, ActionsView, Effect, EffectView, Route, RouteView};
use crate::bus::EventBus;
use crate::events::{Events, EventsView};
use crate::history::{distinct_keys, reading_item, upserted, EntryView, History};
use crate::loading::{loading_text, scanning_text, Loading, LoadingView};
use crate::mode::{Mode, ModeView};
use crate::navigator::{popped, pushed, Navigator};
use crate::select_novel::{SelectNovel, SelectView};

verus! {

/// What the pages share: the reading history.
#[derive(Debug)]
pub struct State {
    pub history: History,
}

/// A session.
#[derive(Debug)]
pub struct App {
    pub state: State,
    pub routes: Navigator<Mode>,
    /// The reader asked to quit. Nothing is processed after that.
    pub show_exit: bool,
    /// The warning on screen, if any. While it shows, keys do not reach the
    /// pages.
    pub warning: Option<String>,
}

/// A session, by what its rules read.
pub struct AppView {
    /// The pages, the last one on top.
    pub pages: Seq<ModeView>,
    pub history: Seq<EntryView>,
    pub show_exit: bool,
    pub warning: Option<Seq<char>>,
}

/// The pages of a stack, each by its view.
pub open spec fn page_views(pages: Seq<Mode>) -> Seq<ModeView> {
    pages.map_values(|m: Mode| m@)
}

/// A text that may be there, by its characters.
pub open spec fn text_view(text: Option<String>) -> Option<Seq<char>> {
    match text {
        Some(t) => Some(t@),
        None => None,
    }
}

/// An effect that may be there, by its texts.
pub open spec fn effect_view(effect: Option<Effect>) -> Option<EffectView> {
    match effect {
        Some(e) => Some(e@),
        None => None,
    }
}

/// The effects of a list, each by its view.
pub open spec fn effect_views(effects: Seq<Effect>) -> Seq<EffectView> {
    effects.map_values(|e: Effect| e@)
}

impl View for App {
    type V = AppView;

    open spec fn view(&self) -> AppView {
        AppView {
            pages: page_views(self.routes@),
            history: self.state.history@,
            show_exit: self.show_exit,
            warning: text_view(self.warning),
        }
    }
}

/// The session and the effect after one event.
pub struct Step {
    pub app: AppView,
    pub effect: Option<EffectView>,
}

/// The session after a run of events, the effects in their order, and the
/// events that were left.
pub struct Run {
    pub app: AppView,
    pub effects: Seq<EffectView>,
    pub rest: Seq<EventsView>,
}

/// The session, the effect and the queue after the session took an event
/// off the bus.
pub struct Taken {
    pub app: AppView,
    pub effect: Option<EffectView>,
    pub rest: Seq<EventsView>,
}

/// No effect, or the one effect, as a list.
pub open spec fn effect_list(effect: Option<EffectView>) -> Seq<EffectView> {
    match effect {
        Some(e) => seq![e],
        None => Seq::empty(),
    }
}

impl AppView {
    /// The invariant of a session: there is a page to show, and no key
    /// occurs twice in the history.
    pub open spec fn wf(self) -> bool {
        self.pages.len() > 0 && distinct_keys(self.history)
    }

    /// A session at its start: one loading page, no warning.
    pub open spec fn start(history: Seq<EntryView>) -> AppView {
        AppView { pages: seq![ModeView::initial()], history, show_exit: false, warning: None }
    }

    /// The page on top.
    pub open spec fn top(self) -> ModeView {
        self.pages.last()
    }

    /// The session with other pages.
    pub open spec fn with_pages(self, pages: Seq<ModeView>) -> AppView {
        AppView { pages, history: self.history, show_exit: self.show_exit, warning: self.warning }
    }

    /// The session with another history.
    pub open spec fn with_history(self, history: Seq<EntryView>) -> AppView {
        AppView { pages: self.pages, history, show_exit: self.show_exit, warning: self.warning }
    }

    /// The session with another warning, or none.
    pub open spec fn with_warning(self, warning: Option<Seq<char>>) -> AppView {
        AppView { pages: self.pages, history: self.history, show_exit: self.show_exit, warning }
    }

    /// The session without the loading page that waited on top of another
    /// page. A session that shows no loading page, or no page but that one,
    /// stays as it is.
    pub open spec fn without_pending(self) -> AppView {
        match self.top() {
            ModeView::Loading(_) => self.with_pages(popped(self.pages)),
            _ => self,
        }
    }

    /// Whether the reading that is going on is still to be recorded: a
    /// reading page is on top, and its reading does not stand in the history
    /// yet.
    pub open spec fn reading_unrecorded(self) -> bool {
        match self.top() {
            ModeView::Read(page) => !page.recorded,
            _ => false,
        }
    }

    /// The session after the reading that is going on was recorded at the
    /// time `now`: the entry under the novel's path is the latest of the
    /// history, and the page knows that it is recorded. Where nothing is to
    /// be recorded the session stays as it is.
    pub open spec fn reading_recorded(self, now: Seq<char>) -> AppView {
        match self.top() {
            ModeView::Read(page) if !page.recorded => AppView {
                pages: self.pages.update(self.pages.len() - 1, ModeView::Read(page.noted())),
                history: upserted(
                    self.history,
                    page.novel.path,
                    reading_item(self.history, page.novel.path, page.novel.title, now),
                ),
                show_exit: self.show_exit,
                warning: self.warning,
            },
            _ => self,
        }
    }

    /// The session puts a page for `route` on top. A page that takes work to
    /// build is stood in for by a loading page, and the work is asked for;
    /// the history page is built on the spot.
    pub open spec fn push(self, route: RouteView) -> Step {
        match route {
            RouteView::SelectNovel(path) => Step {
                app: self.with_pages(
                    pushed(self.pages, ModeView::Loading(LoadingView::start(scanning_text()))),
                ),
                effect: Some(EffectView::Scan(path)),
            },
            RouteView::ReadNovel(key) => Step {
                app: self.with_pages(
                    pushed(self.pages, ModeView::Loading(LoadingView::start(loading_text()))),
                ),
                effect: Some(EffectView::LoadNovel(key)),
            },
            RouteView::BookDetail(key) => Step {
                app: self.with_pages(
                    pushed(self.pages, ModeView::Loading(LoadingView::start(loading_text()))),
                ),
                effect: Some(EffectView::OpenBook(key)),
            },
            RouteView::SelectHistory => Step {
                app: self.with_pages(
                    pushed(self.pages, ModeView::Select(SelectView::history_only())),
                ),
                effect: None,
            },
        }
    }

    /// The session does what a page asked for.
    pub open spec fn perform(self, action: ActionsView) -> Step {
        match action {
            ActionsView::Scan(path) => Step { app: self, effect: Some(EffectView::Scan(path)) },
            ActionsView::SelectedFile(path) => Step {
                app: self,
                effect: Some(EffectView::LoadNovel(path)),
            },
            ActionsView::Push(route) => self.push(route),
            ActionsView::Back => Step { app: self.with_pages(popped(self.pages)), effect: None },
            ActionsView::SaveHistory => Step { app: self, effect: Some(EffectView::SaveHistory) },
        }
    }

    /// The event goes to the page on top, and to no other. What the page
    /// asks for is done; if the page fails, its message becomes the warning.
    pub open spec fn dispatch(self, event: EventsView) -> Step {
        let step = self.top().on_event(self.history, event);
        let app = AppView {
            pages: self.pages.update(self.pages.len() - 1, step.page),
            history: step.history,
            show_exit: self.show_exit,
            warning: self.warning,
        };
        match step.result {
            Ok(Some(action)) => app.perform(action),
            Ok(None) => Step { app, effect: None },
            Err(error) => Step { app: app.with_warning(Some(error.text())), effect: None },
        }
    }

    /// One step of the session.
    ///
    /// After the reader quit, nothing happens any more. Before that, the
    /// session looks at the event first: a quit key ends the session and
    /// asks for the cancellation signal; any other key, while a warning
    /// shows, goes to the warning, which Escape dismisses; it is time to
    /// draw; a new size needs nothing; an error becomes the warning; failed
    /// background work becomes the warning too, and the loading page that
    /// waited for it goes; a route is pushed. Every other event goes to the
    /// page on top.
    pub open spec fn step(self, event: EventsView) -> Step {
        if self.show_exit {
            Step { app: self, effect: None }
        } else {
            match event {
                EventsView::KeyEvent(key) => if key.quits() {
                    Step {
                        app: AppView {
                            pages: self.pages,
                            history: self.history,
                            show_exit: true,
                            warning: self.warning,
                        },
                        effect: Some(EffectView::Cancel),
                    }
                } else if self.warning.is_some() {
                    Step {
                        app: if key.dismisses() { self.with_warning(None) } else { self },
                        effect: None,
                    }
                } else {
                    self.dispatch(event)
                },
                EventsView::Render => Step { app: self, effect: Some(EffectView::Draw) },
                EventsView::Resize(_, _) => Step { app: self, effect: None },
                EventsView::Error(message) => Step {
                    app: self.with_warning(Some(message)),
                    effect: None,
                },
                EventsView::LoadFailed(message) => Step {
                    app: self.without_pending().with_warning(Some(message)),
                    effect: None,
                },
                EventsView::PushRoute(route) => self.push(route),
                _ => self.dispatch(event),
            }
        }
    }

    /// The session takes the event at the front of `queue` and takes one
    /// step with it; the other events stay, in their order. A session that
    /// has ended takes nothing, and from an empty queue there is nothing to
    /// take.
    pub open spec fn take(self, queue: Seq<EventsView>) -> Taken {
        if self.show_exit || queue.len() == 0 {
            Taken { app: self, effect: None, rest: queue }
        } else {
            let step = self.step(queue[0]);
            Taken { app: step.app, effect: step.effect, rest: queue.drop_first() }
        }
    }

    /// The session runs through `events` in their order, one step for each,
    /// until the reader quits or no event is left.
    pub open spec fn run(self, events: Seq<EventsView>) -> Run
        decreases events.len(),
    {
        if self.show_exit || events.len() == 0 {
            Run { app: self, effects: Seq::empty(), rest: events }
        } else {
            let first = self.step(events[0]);
            let then = first.app.run(events.drop_first());
            Run {
                app: then.app,
                effects: effect_list(first.effect) + then.effects,
                rest: then.rest,
            }
        }
    }
}

impl App {
    /// The invariant of a session: there is a page to show, and no key
    /// occurs twice in the history.
    pub open spec fn wf(&self) -> bool {
        self.routes.wf() && self.state.history.wf()
    }

    /// Starts a session on `path`: one loading page over `history`, and the
    /// startup event on the bus.
    pub fn new(path: String, history: History, bus: &mut EventBus) -> (app: App)
        requires
            history.wf(),
        ensures
            app.wf(),
            app@ == AppView::start(history@),
            final(bus)@ == crate::bus::emitted(
                old(bus)@,
                old(bus).is_closed(),
                EventsView::Init(path@),
            ),
            final(bus).is_closed() == old(bus).is_closed(),
    {
        bus.emit(Events::Init(path));
        let routes = Navigator::new(Mode::default());
        let app = App { state: State { history }, routes, show_exit: false, warning: None };
        assert(app@.pages =~= seq![ModeView::initial()]);
        app
    }

    /// Records the reading that is going on, if it is not recorded yet, as
    /// read at the time `now`, and asks for the history to be written out.
    /// With no reading page on top, or with one whose reading is recorded,
    /// nothing happens.
    pub fn record_reading(&mut self, now: String) -> (effect: Option<Effect>)
        requires
            old(self).wf(),
        ensures
            final(self).wf(),
            final(self)@ == old(self)@.reading_recorded(now@),
            effect_view(effect) == (if old(self)@.reading_unrecorded() {
                Some(EffectView::SaveHistory)
            } else {
                None
            }),
    {
        let ghost before = self@;
        let unrecorded = match self.routes.top() {
            Mode::Read(page) => !page.recorded,
            _ => false,
        };
        if !unrecorded {
            return None;
        }
        match self.routes.top_mut() {
            Mode::Read(page) => {
                page.recorded = true;
                let key = page.novel.path.clone();
                let title = page.novel.title.clone();
                let item = self.state.history.reading_now(&key, title, now);
                self.state.history.upsert(key, item);
            },
            _ => {},
        }
        assert(self@.pages =~= before.reading_recorded(now@).pages);
        Some(Effect::SaveHistory)
    }

    /// Puts a page for `route` on top.
    pub fn push(&mut self, route: Route) -> (effect: Option<Effect>)
        requires
            old(self).wf(),
        ensures
            final(self).wf(),
            final(self)@ == old(self)@.push(route@).app,
            effect_view(effect) == old(self)@.push(route@).effect,
    {
        let (page, effect) = match route {
            Route::SelectNovel(path) => (Mode::Loading(Loading::scanning()), Some(Effect::Scan(path))),
            Route::ReadNovel(key) => (
                Mode::Loading(Loading::loading_novel()),
                Some(Effect::LoadNovel(key)),
            ),
            Route::BookDetail(key) => (
                Mode::Loading(Loading::loading_novel()),
                Some(Effect::OpenBook(key)),
            ),
            Route::SelectHistory => (Mode::Select(SelectNovel::history_only()), None),
        };
        self.routes.push(page);
        assert(self@.pages =~= pushed(old(self)@.pages, page@));
        effect
    }

    /// Does what a page asked for.
    fn perform(&mut self, action: Actions) -> (effect: Option<Effect>)
        requires
            old(self).wf(),
        ensures
            final(self).wf(),
            final(self)@ == old(self)@.perform(action@).app,
            effect_view(effect) == old(self)@.perform(action@).effect,
    {
        match action {
            Actions::Scan(path) => Some(Effect::Scan(path)),
            Actions::SelectedFile(path) => Some(Effect::LoadNovel(path)),
            Actions::Push(route) => self.push(route),
            Actions::Back => {
                self.routes.pop();
                assert(self@.pages =~= popped(old(self)@.pages));
                None
            },
            Actions::SaveHistory => Some(Effect::SaveHistory),
        }
    }

    /// Hands an event to the page on top.
    fn dispatch(&mut self, event: Events) -> (effect: Option<Effect>)
        requires
            old(self).wf(),
        ensures
            final(self).wf(),
            final(self)@ == old(self)@.dispatch(event@).app,
            effect_view(effect) == old(self)@.dispatch(event@).effect,
    {
        let ghost before = self@;
        let page = self.routes.top_mut();
        let result = page.handle_events(event, &mut self.state.history);
        assert(self@.pages =~= before.pages.update(
            before.pages.len() - 1,
            before.top().on_event(before.history, event@).page,
        ));
        match result {
            Ok(Some(action)) => self.perform(action),
            Ok(None) => None,
            Err(error) => {
                self.warning = Some(error.message());
                None
            },
        }
    }

    /// Takes one step with `event`.
    pub fn step(&mut self, event: Events) -> (effect: Option<Effect>)
        requires
            old(self).wf(),
        ensures
            final(self).wf(),
            final(self)@ == old(self)@.step(event@).app,
            effect_view(effect) == old(self)@.step(event@).effect,
    {
        if self.show_exit {
            return None;
        }
        match event {
            Events::KeyEvent(key) => {
                if key.is_quit() {
                    self.show_exit = true;
                    Some(Effect::Cancel)
                } else if self.warning.is_some() {
                    if key.is_dismiss() {
                        self.warning = None;
                    }
                    None
                } else {
                    self.dispatch(Events::KeyEvent(key))
                }
            },
            Events::Render => Some(Effect::Draw),
            Events::Resize(_, _) => None,
            Events::Error(message) => {
                self.warning = Some(message);
                None
            },
            Events::LoadFailed(message) => {
                let pending = match self.routes.top() {
                    Mode::Loading(_) => true,
                    _ => false,
                };
                if pending {
                    self.routes.pop();
                    assert(self@.pages =~= popped(old(self)@.pages));
                }
                self.warning = Some(message);
                None
            },
            Events::PushRoute(route) => self.push(route),
            other => self.dispatch(other),
        }
    }

    /// Takes the next event off the bus, if the session still runs and there
    /// is one, and takes one step with it. When the step asks for the
    /// cancellation signal, the bus is closed.
    pub fn handle_events(&mut self, bus: &mut EventBus) -> (effect: Option<Effect>)
        requires
            old(self).wf(),
        ensures
            final(self).wf(),
            final(self)@ == old(self)@.take(old(bus)@).app,
            effect_view(effect) == old(self)@.take(old(bus)@).effect,
            final(bus)@ == old(self)@.take(old(bus)@).rest,
            final(bus).is_closed() == (old(bus).is_closed() || (final(self).show_exit && !old(
                self,
            ).show_exit)),
    {
        if self.show_exit {
            return None;
        }
        match bus.next() {
            Some(event) => {
                let effect = self.step(event);
                if self.show_exit {
                    bus.close();
                }
                effect
            },
            None => None,
        }
    }

    /// Runs the session through the events on the bus, in their order, until
    /// the reader quits or the bus is empty, and returns the effects in the
    /// order in which the steps asked for them.
    pub fn run(&mut self, bus: &mut EventBus) -> (effects: Vec<Effect>)
        requires
            old(self).wf(),
        ensures
            final(self).wf(),
            final(self)@ == old(self)@.run(old(bus)@).app,
            effect_views(effects@) == old(self)@.run(old(bus)@).effects,
            final(bus)@ == old(self)@.run(old(bus)@).rest,
            final(bus).is_closed() == (old(bus).is_closed() || (final(self).show_exit && !old(
                self,
            ).show_exit)),
    {
        let ghost whole = self@.run(bus@);
        let mut effects: Vec<Effect> = Vec::new();
        assert(effect_views(effects@) =~= Seq::<EffectView>::empty());
        assert(effect_views(effects@) + whole.effects =~= whole.effects);
        while !self.show_exit && bus.len() > 0
            invariant
                self.wf(),
                whole.app == self@.run(bus@).app,
                whole.effects == effect_views(effects@) + self@.run(bus@).effects,
                whole.rest == self@.run(bus@).rest,
                old(self).show_exit ==> self.show_exit,
                bus.is_closed() == (old(bus).is_closed() || (self.show_exit && !old(
                    self,
                ).show_exit)),
            decreases bus@.len(),
        {
            let ghost app = self@;
            let ghost queue = bus@;
            let ghost done = effect_views(effects@);
            let effect = self.handle_events(bus);
            proof {
                let first = app.step(queue[0]);
                assert(effect_view(effect) == first.effect);
            }
            match effect {
                Some(e) => {
                    effects.push(e);
                    assert(effect_views(effects@) =~= done + seq![e@]);
                },
                None => {
                    assert(done + Seq::<EffectView>::empty() =~= done);
                },
            }
            assert(effect_views(effects@) == done + effect_list(app.step(queue[0]).effect));
            assert(effect_views(effects@) + self@.run(bus@).effects =~= done + (effect_list(
                app.step(queue[0]).effect,
            ) + self@.run(bus@).effects));
        }
        assert(effect_views(effects@) + Seq::<EffectView>::empty() =~= effect_views(effects@));
        effects
    }

    /// What is to be drawn: the page on top, and the warning over it if
    /// there is one.
    pub fn draw(&self) -> (screen: (&Mode, Option<&String>))
        requires
            self.wf(),
        ensures
            screen.0@ == self@.top(),
            match screen.1 {
                Some(text) => self@.warning == Some(text@),
                None => self@.warning.is_none(),
            },
    {
        let page = self.routes.top();
        let warning = match &self.warning {
            Some(text) => Some(text),
            None => None,
        };
        (page, warning)
    }
}

} // verus!
