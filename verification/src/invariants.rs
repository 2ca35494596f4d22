//! What holds of every session, whatever events come.

use vstd::prelude::*;
use crate::actions::EffectView;
use crate::events::EventsView;
use crate::history::{distinct_keys, removed, EntryView};
use crate::key::KeyEvent;
use crate::loading::LoadingView;
use crate::mode::ModeView;
use crate::read_novel::{NovelView, ReadView};
use crate::select_novel::SelectView;
use crate::actions::RouteView;
use crate::navigator::{popped, pushed};
use crate::session::{effect_list, AppView, Run, Step, Taken};

verus! {

/// Removing an entry keeps distinct keys distinct.
pub proof fn lemma_removed_keeps_distinct(entries: Seq<EntryView>, index: int)
    requires
        distinct_keys(entries),
    ensures
        distinct_keys(removed(entries, index)),
{
    if 0 <= index < entries.len() {
        let after = entries.remove(index);
        assert forall|i: int, j: int| 0 <= i < j < after.len() implies after[i].0 != after[j].0 by {
            let a = if i < index { i } else { i + 1 };
            let b = if j < index { j } else { j + 1 };
            assert(after[i] == entries[a]);
            assert(after[j] == entries[b]);
        }
    }
}

/// A step keeps the invariant of the session: afterwards there is still a
/// page to show, and still no key occurs twice in the history.
pub proof fn lemma_step_keeps_invariant(app: AppView, event: EventsView)
    requires
        app.wf(),
    ensures
        app.step(event).app.wf(),
{
    if let EventsView::KeyEvent(key) = event {
        if let ModeView::Select(page) = app.top() {
            if let Some(index) = page.history.cursor.selected {
                lemma_removed_keeps_distinct(app.history, index as int);
            }
        }
    }
}

/// A run keeps the invariant of the session.
pub proof fn lemma_run_keeps_invariant(app: AppView, events: Seq<EventsView>)
    requires
        app.wf(),
    ensures
        app.run(events).app.wf(),
    decreases events.len(),
{
    if !app.show_exit && events.len() > 0 {
        lemma_step_keeps_invariant(app, events[0]);
        lemma_run_keeps_invariant(app.step(events[0]).app, events.drop_first());
    }
}

/// Exactly one event is taken at a time, and it is the one at the front:
/// the session takes one step with it, and every other event stays where it
/// was in the order. A session that has ended takes none.
pub proof fn lemma_takes_the_front_event(app: AppView, queue: Seq<EventsView>)
    ensures
        ({
            let taken = app.take(queue);
            &&& !app.show_exit && queue.len() > 0 ==> {
                &&& taken.app == app.step(queue[0]).app
                &&& taken.effect == app.step(queue[0]).effect
                &&& taken.rest.len() == queue.len() - 1
                &&& forall|i: int| 0 <= i < taken.rest.len() ==> taken.rest[i] == queue[i + 1]
            }
            &&& app.show_exit || queue.len() == 0 ==> taken == (Taken {
                app,
                effect: None,
                rest: queue,
            })
        }),
{
}

/// A run is one taking after the other.
pub proof fn lemma_run_is_repeated_taking(app: AppView, queue: Seq<EventsView>)
    ensures
        ({
            let taken = app.take(queue);
            let then = taken.app.run(taken.rest);
            &&& app.run(queue).app == then.app
            &&& app.run(queue).effects == effect_list(taken.effect) + then.effects
            &&& app.run(queue).rest == then.rest
        }),
{
    let taken = app.take(queue);
    let then = taken.app.run(taken.rest);
    if app.show_exit || queue.len() == 0 {
        assert(effect_list(taken.effect) + then.effects =~= then.effects);
    }
}

/// A run of one event is one step.
pub proof fn lemma_run_of_one(app: AppView, event: EventsView)
    requires
        !app.show_exit,
    ensures
        app.run(seq![event]).app == app.step(event).app,
        app.run(seq![event]).effects == effect_list(app.step(event).effect),
        app.run(seq![event]).rest == Seq::<EventsView>::empty(),
{
    let events = seq![event];
    let next = app.step(event).app;
    assert(events.drop_first() =~= Seq::<EventsView>::empty());
    assert(next.run(events.drop_first()).effects =~= Seq::<EffectView>::empty());
    assert(effect_list(app.step(event).effect) + Seq::<EffectView>::empty() =~= effect_list(
        app.step(event).effect,
    ));
}

/// The events are processed strictly in their order, one step for each, with
/// nothing in between: a run through two lists of events, one after the
/// other, is the run through the first list followed by the run through what
/// is then left.
pub proof fn lemma_run_in_order(app: AppView, first: Seq<EventsView>, second: Seq<EventsView>)
    ensures
        ({
            let whole = app.run(first + second);
            let head = app.run(first);
            let tail = head.app.run(head.rest + second);
            &&& whole.app == tail.app
            &&& whole.effects == head.effects + tail.effects
            &&& whole.rest == tail.rest
        }),
    decreases first.len(),
{
    let whole = app.run(first + second);
    let head = app.run(first);
    let tail = head.app.run(head.rest + second);
    if app.show_exit {
        assert(head.effects + tail.effects =~= tail.effects);
    } else if first.len() == 0 {
        assert(first + second =~= second);
        assert(head.rest + second =~= second);
        assert(head.effects + tail.effects =~= tail.effects);
    } else {
        let next = app.step(first[0]).app;
        assert((first + second)[0] == first[0]);
        assert((first + second).drop_first() =~= first.drop_first() + second);
        lemma_run_in_order(next, first.drop_first(), second);
        let one = effect_list(app.step(first[0]).effect);
        let inner = next.run(first.drop_first());
        assert(one + (inner.effects + tail.effects) =~= (one + inner.effects) + tail.effects);
    }
}

/// What a run leaves is the end of what it was given, and it leaves
/// something only if the reader quit. No step gives more than one effect.
pub proof fn lemma_run_leaves_suffix(app: AppView, events: Seq<EventsView>)
    ensures
        ({
            let run = app.run(events);
            let taken = events.len() - run.rest.len();
            &&& 0 <= taken <= events.len()
            &&& run.rest == events.skip(taken)
            &&& run.effects.len() <= taken
            &&& run.rest.len() > 0 ==> run.app.show_exit
        }),
    decreases events.len(),
{
    if app.show_exit || events.len() == 0 {
        assert(events.skip(0) =~= events);
    } else {
        let next = app.step(events[0]).app;
        lemma_run_leaves_suffix(next, events.drop_first());
        let inner = next.run(events.drop_first());
        let taken = events.drop_first().len() - inner.rest.len();
        assert(events.drop_first().skip(taken) =~= events.skip(taken + 1));
    }
}

/// A quit key ends the session in whatever state it is: the step asks for
/// the cancellation signal and sets the exit flag, and touches nothing else.
pub proof fn lemma_quit_key_ends_session(app: AppView, key: KeyEvent)
    requires
        !app.show_exit,
        key.quits(),
    ensures
        app.step(EventsView::KeyEvent(key)).effect == Some(EffectView::Cancel),
        app.step(EventsView::KeyEvent(key)).app.show_exit,
        app.step(EventsView::KeyEvent(key)).app.pages == app.pages,
        app.step(EventsView::KeyEvent(key)).app.history == app.history,
        app.step(EventsView::KeyEvent(key)).app.warning == app.warning,
{
}

/// After the reader quit, no event changes the session and no step asks for
/// anything: nothing is drawn, and the signal is not fired again.
pub proof fn lemma_nothing_after_exit(app: AppView, event: EventsView, events: Seq<EventsView>)
    requires
        app.show_exit,
    ensures
        app.step(event) == (Step { app, effect: None }),
        app.run(events) == (Run { app, effects: Seq::empty(), rest: events }),
{
}

/// A step asks for the cancellation signal exactly when it sets the exit
/// flag.
pub proof fn lemma_cancel_sets_exit(app: AppView, event: EventsView)
    requires
        !app.show_exit,
    ensures
        app.step(event).app.show_exit <==> app.step(event).effect == Some(EffectView::Cancel),
        app.step(event).app.show_exit <==> (event matches EventsView::KeyEvent(key) && key.quits()),
{
}

/// In a run the cancellation signal is asked for at most once, and only as
/// the last effect: nothing is drawn after it. It is asked for exactly when
/// the run sets the exit flag.
pub proof fn lemma_cancel_once_and_last(app: AppView, events: Seq<EventsView>)
    requires
        !app.show_exit,
    ensures
        ({
            let run = app.run(events);
            &&& forall|i: int|
                0 <= i < run.effects.len() && run.effects[i] == EffectView::Cancel ==> i
                    == run.effects.len() - 1
            &&& run.app.show_exit <==> (run.effects.len() > 0 && run.effects.last()
                == EffectView::Cancel)
        }),
    decreases events.len(),
{
    if events.len() > 0 {
        let first = app.step(events[0]);
        let then = first.app.run(events.drop_first());
        let run = app.run(events);
        lemma_cancel_sets_exit(app, events[0]);
        if first.app.show_exit {
            assert(run.effects =~= seq![EffectView::Cancel]);
        } else {
            lemma_cancel_once_and_last(first.app, events.drop_first());
            let one = effect_list(first.effect);
            assert(forall|i: int| 0 <= i < one.len() ==> one[i] != EffectView::Cancel);
            assert forall|i: int|
                0 <= i < run.effects.len() && run.effects[i] == EffectView::Cancel implies i
                == run.effects.len() - 1 by {
                if i >= one.len() {
                    assert(run.effects[i] == then.effects[i - one.len()]);
                }
            }
            if then.effects.len() > 0 {
                assert(run.effects.last() == then.effects.last());
            }
        }
    }
}

/// While a warning shows, no key reaches the pages: whatever key comes, and
/// whether the session still runs or not, the pages and the history stay as
/// they are. In a running session Escape takes the warning away and nothing
/// else, and a key that neither quits nor dismisses changes nothing at all.
/// In a session that has ended no key changes anything.
pub proof fn lemma_warning_takes_keys(app: AppView, key: KeyEvent)
    requires
        app.warning.is_some(),
    ensures
        ({
            let step = app.step(EventsView::KeyEvent(key));
            &&& step.app.pages == app.pages
            &&& step.app.history == app.history
            &&& step.app.show_exit == (app.show_exit || key.quits())
            &&& !app.show_exit && key.dismisses() ==> step.app == app.with_warning(None)
                && step.effect.is_none()
            &&& !app.show_exit && !key.dismisses() && !key.quits() ==> step.app == app
                && step.effect.is_none()
            &&& app.show_exit ==> step.app == app && step.effect.is_none()
        }),
{
}

/// A reading is recorded once: after it was recorded nothing is left to
/// record until another reading page is on top, and recording again changes
/// nothing. Recording touches no page but the reading page on top, and there
/// only the mark that it is recorded.
pub proof fn lemma_reading_is_recorded_once(app: AppView, now: Seq<char>, later: Seq<char>)
    requires
        app.wf(),
    ensures
        !app.reading_recorded(now).reading_unrecorded(),
        app.reading_recorded(now).reading_recorded(later) == app.reading_recorded(now),
        app.reading_recorded(now).pages.len() == app.pages.len(),
        forall|i: int|
            0 <= i < app.pages.len() - 1 ==> app.reading_recorded(now).pages[i] == app.pages[i],
        app.reading_unrecorded() ==> app.reading_recorded(now).history[0].0
            == app.top()->Read_0.novel.path,
{
}

/// A loading page that stands in for a page is transient: when the work
/// for a pushed route fails, the loading page goes, the session shows the
/// pages it showed before the push, and the failure is the warning.
pub proof fn lemma_failed_load_takes_placeholder_off(
    app: AppView,
    route: RouteView,
    message: Seq<char>,
)
    requires
        app.wf(),
        !app.show_exit,
        route != RouteView::SelectHistory,
    ensures
        app.push(route).app.step(EventsView::LoadFailed(message)).app == app.with_warning(
            Some(message),
        ),
        app.push(route).app.step(EventsView::LoadFailed(message)).effect.is_none(),
{
    let page = app.push(route).app.top();
    assert(popped(pushed(app.pages, page)) =~= app.pages);
}

/// Failed work takes off nothing but a loading page: a session that shows
/// another page, or a loading page alone, keeps its pages and gets the
/// warning.
pub proof fn lemma_failed_load_keeps_other_pages(app: AppView, message: Seq<char>)
    requires
        app.wf(),
        !app.show_exit,
        !(app.top() is Loading) || app.pages.len() == 1,
    ensures
        app.step(EventsView::LoadFailed(message)).app == app.with_warning(Some(message)),
{
}

/// Only the page on top ever receives an event: the pages below it are the
/// same after a step, unless the step took the top page off.
pub proof fn lemma_lower_pages_untouched(app: AppView, event: EventsView)
    requires
        app.wf(),
    ensures
        forall|i: int|
            0 <= i < app.pages.len() - 1 && i < app.step(event).app.pages.len() ==> app.step(
                event,
            ).app.pages[i] == app.pages[i],
        app.pages.len() - 1 <= app.step(event).app.pages.len() <= app.pages.len() + 1,
{
}

/// A ticking loading page stays a loading page, and a tick changes no other
/// page.
pub proof fn lemma_tick_moves_loading_only(app: AppView)
    requires
        app.wf(),
        !app.show_exit,
    ensures
        ({
            let step = app.step(EventsView::Tick);
            &&& step.effect.is_none()
            &&& step.app.history == app.history
            &&& match app.top() {
                ModeView::Loading(page) => step.app.pages == app.pages.update(
                    app.pages.len() - 1,
                    ModeView::Loading(page.ticked()),
                ),
                _ => step.app.pages == app.pages,
            }
        }),
{
    let step = app.step(EventsView::Tick);
    match app.top() {
        ModeView::Loading(page) => {},
        _ => {
            assert(step.app.pages =~= app.pages);
        },
    }
}

/// When loading begins and the novel then arrives, the session goes from
/// the loading page straight to the reading page: no selection page is
/// shown on the way.
pub proof fn lemma_loaded_novel_is_read_at_once(
    app: AppView,
    message: Seq<char>,
    novel: NovelView,
)
    requires
        app.wf(),
        !app.show_exit,
    ensures
        ({
            let loading = app.step(EventsView::Loading(message)).app;
            let reading = loading.step(EventsView::ReadNovel(novel)).app;
            &&& loading.top() == ModeView::Loading(LoadingView::start(message))
            &&& reading.top() == ModeView::Read(ReadView::opening(novel))
            &&& reading.pages.len() == app.pages.len()
        }),
{
}

/// When a scan reports files and history entries under distinct keys, the
/// selection page comes up with both: the files in its file list, and the
/// entries as the history.
pub proof fn lemma_scan_shows_files_and_history(
    app: AppView,
    files: Seq<Seq<char>>,
    entries: Seq<EntryView>,
)
    requires
        app.wf(),
        !app.show_exit,
        distinct_keys(entries),
    ensures
        ({
            let step = app.step(EventsView::SelectNovel(files, entries));
            &&& step.app.top() == ModeView::Select(SelectView::listing(files))
            &&& step.app.history == entries
            &&& step.effect.is_none()
        }),
{
}

} // verus!
