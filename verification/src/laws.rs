//! Engine-wide laws, each proved once and for all over the worker's
//! translation semantics.

use vstd::prelude::*;

use crate::codes::is_gamepad_button_code;
use crate::codes::is_mouse_button_code;
use crate::codes::BTN_LEFT;
use crate::codes::BTN_MIDDLE;
use crate::codes::BTN_RIGHT;
use crate::translate::spec_display_keycode;
use crate::translate::spec_mouse_button_of;
use crate::translate::spec_wheel_button;
use crate::translate::RelAxisKind;
use crate::translate::InputEvent;
use crate::translate::SyntheticAction;
use crate::types::BackendCommand;
use crate::types::ClientError;
use crate::worker::batch_output;
use crate::worker::batch_step;
use crate::worker::display_output;
use crate::worker::spec_output;
use crate::worker::spec_poll_step;
use crate::worker::spec_sink_to_build;
use crate::worker::CommandPoll;
use crate::worker::Worker;

verus! {

/// Once a classification is fixed, no event stream changes the worker's
/// state again: classification, sink, and life cycle are stable under
/// translation.
pub proof fn lemma_classification_stable(w: Worker, evs: Seq<InputEvent>)
    requires
        w.classified,
    ensures
        batch_step(w, evs) == w,
    decreases evs.len(),
{
    if evs.len() > 0 {
        lemma_classification_stable(w, evs.drop_last());
    }
}

/// Splitting a batch in two translates to translating the parts in order.
pub proof fn lemma_batch_concat(w: Worker, a: Seq<InputEvent>, b: Seq<InputEvent>)
    ensures
        batch_step(w, a + b) == batch_step(batch_step(w, a), b),
        batch_output(w, a + b) == batch_output(w, a) + batch_output(batch_step(w, a), b),
    decreases b.len(),
{
    if b.len() == 0 {
        assert(a + b =~= a);
        assert(batch_output(w, a) + batch_output(batch_step(w, a), b) =~= batch_output(w, a));
    } else {
        lemma_batch_concat(w, a, b.drop_last());
        assert((a + b).drop_last() =~= a + b.drop_last());
        assert((a + b).last() == b.last());
        assert(batch_output(w, a) + (batch_output(batch_step(w, a), b.drop_last()) + spec_output(
            batch_step(batch_step(w, a), b.drop_last()),
            b.last(),
        )) =~= (batch_output(w, a) + batch_output(batch_step(w, a), b.drop_last())) + spec_output(
            batch_step(batch_step(w, a), b.drop_last()),
            b.last(),
        ));
    }
}

/// Autorepeat events (value 2) of any key produce no synthetic output at
/// all, on any worker whose classification is fixed.
pub proof fn lemma_autorepeat_silent(w: Worker, repeats: Seq<InputEvent>)
    requires
        w.classified,
        forall|i: int|
            0 <= i < repeats.len() ==> (#[trigger] repeats[i]) matches InputEvent::Key { value: 2, .. },
    ensures
        batch_step(w, repeats) == w,
        batch_output(w, repeats) == Seq::<SyntheticAction>::empty(),
    decreases repeats.len(),
{
    lemma_classification_stable(w, repeats);
    if repeats.len() > 0 {
        assert(forall|i: int|
            0 <= i < repeats.drop_last().len() ==> (#[trigger] repeats.drop_last()[i]) matches InputEvent::Key {
                value: 2,
                ..
            });
        lemma_autorepeat_silent(w, repeats.drop_last());
        lemma_classification_stable(w, repeats.drop_last());
        assert(batch_output(w, repeats) =~= Seq::<SyntheticAction>::empty());
    }
}

/// For any key code outside the mouse-button and gamepad-button blocks, a
/// press followed by a release — with any number of autorepeat events in
/// between — produces exactly one synthetic key press and one synthetic
/// key release on a configured display sink, and the autorepeats produce
/// nothing.
pub proof fn lemma_plain_key_press_release(w: Worker, code: u16, repeats: Seq<InputEvent>)
    requires
        w.wf(),
        w.sink is DisplayConnection,
        !is_mouse_button_code(code),
        !is_gamepad_button_code(code),
        forall|i: int|
            0 <= i < repeats.len() ==> (#[trigger] repeats[i]) matches InputEvent::Key { value: 2, .. },
    ensures
        batch_output(
            w,
            seq![InputEvent::Key { code, value: 1 }] + repeats + seq![
                InputEvent::Key { code, value: 0 },
            ],
        ) == seq![
            SyntheticAction::KeyPress { keycode: spec_display_keycode(code) },
            SyntheticAction::KeyRelease { keycode: spec_display_keycode(code) },
        ],
{
    let press = seq![InputEvent::Key { code, value: 1 }];
    let release = seq![InputEvent::Key { code, value: 0 }];
    let none: Seq<InputEvent> = Seq::empty();
    assert(press.drop_last() =~= none);
    assert(release.drop_last() =~= none);
    assert(batch_output(w, none) =~= Seq::<SyntheticAction>::empty());
    assert(batch_step(w, none) == w);
    assert(batch_output(w, press) =~= display_output(InputEvent::Key { code, value: 1 }));
    lemma_classification_stable(w, press);
    lemma_batch_concat(w, press, repeats);
    lemma_autorepeat_silent(w, repeats);
    lemma_batch_concat(w, press + repeats, release);
    lemma_classification_stable(w, press + repeats);
    assert(batch_output(w, release) =~= display_output(InputEvent::Key { code, value: 0 }));
    assert(batch_output(w, press + repeats + release) =~= seq![
        SyntheticAction::KeyPress { keycode: spec_display_keycode(code) },
        SyntheticAction::KeyRelease { keycode: spec_display_keycode(code) },
    ]);
}

/// A press/release pair of any of the three mouse-button codes maps to a
/// press and a release of the same pointer button, and the mapping is the
/// fixed total function left/right/middle over exactly those codes.
pub proof fn lemma_mouse_button_pair(w: Worker, code: u16)
    requires
        w.wf(),
        w.sink is DisplayConnection,
        is_mouse_button_code(code),
    ensures
        ({
            let b = spec_mouse_button_of(code);
            &&& batch_output(
                w,
                seq![InputEvent::Key { code, value: 1 }, InputEvent::Key { code, value: 0 }],
            ) == seq![
                SyntheticAction::ButtonPress { button: b },
                SyntheticAction::ButtonRelease { button: b },
            ]
            &&& (b is Left <==> code == BTN_LEFT)
            &&& (b is Right <==> code == BTN_RIGHT)
            &&& (b is Middle <==> code == BTN_MIDDLE)
        }),
{
    let evs = seq![InputEvent::Key { code, value: 1 }, InputEvent::Key { code, value: 0 }];
    let none: Seq<InputEvent> = Seq::empty();
    assert(evs.drop_last() =~= seq![InputEvent::Key { code, value: 1 }]);
    assert(evs.drop_last().drop_last() =~= none);
    assert(batch_output(w, none) =~= Seq::<SyntheticAction>::empty());
    assert(batch_step(w, none) == w);
    lemma_classification_stable(w, evs.drop_last());
    assert(batch_output(w, evs.drop_last()) =~= seq![
        SyntheticAction::ButtonPress { button: spec_mouse_button_of(code) },
    ]);
    assert(batch_output(w, evs) =~= seq![
        SyntheticAction::ButtonPress { button: spec_mouse_button_of(code) },
        SyntheticAction::ButtonRelease { button: spec_mouse_button_of(code) },
    ]);
}

/// The net relative displacement an event sequence reports on the X axis.
pub open spec fn rel_x_total(evs: Seq<InputEvent>) -> int
    decreases evs.len(),
{
    if evs.len() == 0 {
        0
    } else {
        rel_x_total(evs.drop_last()) + (match evs.last() {
            InputEvent::Relative { axis, value } => if axis is X {
                value as int
            } else {
                0
            },
            _ => 0,
        })
    }
}

/// The net relative displacement an event sequence reports on the Y axis.
pub open spec fn rel_y_total(evs: Seq<InputEvent>) -> int
    decreases evs.len(),
{
    if evs.len() == 0 {
        0
    } else {
        rel_y_total(evs.drop_last()) + (match evs.last() {
            InputEvent::Relative { axis, value } => if axis is Y {
                value as int
            } else {
                0
            },
            _ => 0,
        })
    }
}

/// The net displacement a sequence of synthetic actions moves the pointer
/// by, on the X axis.
pub open spec fn move_dx_total(acts: Seq<SyntheticAction>) -> int
    decreases acts.len(),
{
    if acts.len() == 0 {
        0
    } else {
        move_dx_total(acts.drop_last()) + (match acts.last() {
            SyntheticAction::RelativeMove { dx, .. } => dx as int,
            _ => 0,
        })
    }
}

/// The net displacement a sequence of synthetic actions moves the pointer
/// by, on the Y axis.
pub open spec fn move_dy_total(acts: Seq<SyntheticAction>) -> int
    decreases acts.len(),
{
    if acts.len() == 0 {
        0
    } else {
        move_dy_total(acts.drop_last()) + (match acts.last() {
            SyntheticAction::RelativeMove { dy, .. } => dy as int,
            _ => 0,
        })
    }
}

/// The net pointer displacement of two action sequences in a row is the
/// sum of their displacements.
pub proof fn lemma_move_totals_concat(a: Seq<SyntheticAction>, b: Seq<SyntheticAction>)
    ensures
        move_dx_total(a + b) == move_dx_total(a) + move_dx_total(b),
        move_dy_total(a + b) == move_dy_total(a) + move_dy_total(b),
    decreases b.len(),
{
    if b.len() == 0 {
        assert(a + b =~= a);
    } else {
        lemma_move_totals_concat(a, b.drop_last());
        assert((a + b).drop_last() =~= a + b.drop_last());
        assert((a + b).last() == b.last());
    }
}

/// The pointer displacement of a single synthetic action.
proof fn lemma_move_totals_singleton(a: SyntheticAction)
    ensures
        move_dx_total(seq![a]) == (match a {
            SyntheticAction::RelativeMove { dx, .. } => dx as int,
            _ => 0,
        }),
        move_dy_total(seq![a]) == (match a {
            SyntheticAction::RelativeMove { dy, .. } => dy as int,
            _ => 0,
        }),
{
    assert(seq![a].drop_last() =~= Seq::<SyntheticAction>::empty());
    assert(move_dx_total(Seq::<SyntheticAction>::empty()) == 0);
    assert(move_dy_total(Seq::<SyntheticAction>::empty()) == 0);
    assert(seq![a].last() == a);
}

/// What one event contributes to the pointer displacement of a display
/// sink's output: exactly its own relative delta.
proof fn lemma_display_output_move_totals(ev: InputEvent)
    ensures
        move_dx_total(display_output(ev)) == rel_x_total(seq![ev]),
        move_dy_total(display_output(ev)) == rel_y_total(seq![ev]),
{
    let out = display_output(ev);
    assert(rel_x_total(Seq::<InputEvent>::empty()) == 0);
    assert(rel_y_total(Seq::<InputEvent>::empty()) == 0);
    assert(move_dx_total(Seq::<SyntheticAction>::empty()) == 0);
    assert(move_dy_total(Seq::<SyntheticAction>::empty()) == 0);
    assert(seq![ev].drop_last() =~= Seq::<InputEvent>::empty());
    assert(seq![ev].last() == ev);
    match ev {
        InputEvent::Key { code, value } => {
            if value != 2 {
                if is_mouse_button_code(code) {
                    if value == 1 {
                        lemma_move_totals_singleton(
                            SyntheticAction::ButtonPress { button: spec_mouse_button_of(code) },
                        );
                    } else {
                        lemma_move_totals_singleton(
                            SyntheticAction::ButtonRelease { button: spec_mouse_button_of(code) },
                        );
                    }
                } else if !is_gamepad_button_code(code) {
                    if value == 1 {
                        lemma_move_totals_singleton(
                            SyntheticAction::KeyPress { keycode: spec_display_keycode(code) },
                        );
                    } else {
                        lemma_move_totals_singleton(
                            SyntheticAction::KeyRelease { keycode: spec_display_keycode(code) },
                        );
                    }
                }
            }
        },
        InputEvent::Relative { axis, value } => {
            match axis {
                RelAxisKind::X => {
                    lemma_move_totals_singleton(SyntheticAction::RelativeMove { dx: value, dy: 0 });
                },
                RelAxisKind::Y => {
                    lemma_move_totals_singleton(SyntheticAction::RelativeMove { dx: 0, dy: value });
                },
                RelAxisKind::Wheel => {
                    let press = SyntheticAction::ButtonPress { button: spec_wheel_button(value) };
                    let release = SyntheticAction::ButtonRelease {
                        button: spec_wheel_button(value),
                    };
                    assert(out =~= seq![press] + seq![release]);
                    lemma_move_totals_singleton(press);
                    lemma_move_totals_singleton(release);
                    lemma_move_totals_concat(seq![press], seq![release]);
                },
                RelAxisKind::Other => {},
            }
        },
        InputEvent::Absolute { .. } => {},
        InputEvent::Other => {},
    }
}

/// Over any event sequence, the cumulative synthetic relative displacement
/// a configured display sink emits equals the sum of the reported deltas:
/// once the sink is configured, no motion is dropped.
pub proof fn lemma_relative_motion_accumulates(w: Worker, evs: Seq<InputEvent>)
    requires
        w.wf(),
        w.sink is DisplayConnection,
    ensures
        move_dx_total(batch_output(w, evs)) == rel_x_total(evs),
        move_dy_total(batch_output(w, evs)) == rel_y_total(evs),
    decreases evs.len(),
{
    if evs.len() > 0 {
        lemma_relative_motion_accumulates(w, evs.drop_last());
        lemma_classification_stable(w, evs.drop_last());
        lemma_move_totals_concat(batch_output(w, evs.drop_last()), spec_output(w, evs.last()));
        lemma_display_output_move_totals(evs.last());
        assert(seq![evs.last()].drop_last() =~= Seq::<InputEvent>::empty());
        assert(rel_x_total(Seq::<InputEvent>::empty()) == 0);
        assert(rel_y_total(Seq::<InputEvent>::empty()) == 0);
        assert(rel_x_total(seq![evs.last()]) == rel_x_total(evs) - rel_x_total(evs.drop_last()));
        assert(rel_y_total(seq![evs.last()]) == rel_y_total(evs) - rel_y_total(evs.drop_last()));
    }
}

/// A scroll-button press never stands alone: wherever one appears in a
/// translation's output, the very next action of the same translation is
/// the release of the same button.
pub proof fn lemma_wheel_press_release_paired(w: Worker, ev: InputEvent, i: int)
    requires
        w.wf(),
        0 <= i < spec_output(w, ev).len(),
        spec_output(w, ev)[i] is ButtonPress,
        spec_output(w, ev)[i]->ButtonPress_button is ScrollUp || spec_output(
            w,
            ev,
        )[i]->ButtonPress_button is ScrollDown,
    ensures
        i + 1 < spec_output(w, ev).len(),
        spec_output(w, ev)[i + 1] == (SyntheticAction::ButtonRelease {
            button: spec_output(w, ev)[i]->ButtonPress_button,
        }),
{
}

/// Until a sink is configured, every event is dropped: whatever the
/// stream, a worker without a sink emits nothing (though its
/// classification may become fixed along the way).
pub proof fn lemma_unconfigured_silent(w: Worker, evs: Seq<InputEvent>)
    requires
        w.sink is Unconfigured,
    ensures
        batch_step(w, evs).sink is Unconfigured,
        batch_output(w, evs) == Seq::<SyntheticAction>::empty(),
    decreases evs.len(),
{
    if evs.len() > 0 {
        lemma_unconfigured_silent(w, evs.drop_last());
        assert(batch_output(w, evs) =~= Seq::<SyntheticAction>::empty());
    }
}

/// A device whose classification is fixed as `Unknown` — no signature, or
/// an ambiguous combination of two or more — never asks for a sink and
/// never emits anything: every event stream leaves it exactly as it is.
pub proof fn lemma_unknown_terminal_silent(w: Worker, evs: Seq<InputEvent>)
    requires
        w.wf(),
        w.classified,
        w.devicetype is Unknown,
    ensures
        w.sink is Unconfigured,
        batch_step(w, evs) == w,
        batch_output(w, evs) == Seq::<SyntheticAction>::empty(),
        spec_sink_to_build(batch_step(w, evs)) is None,
    decreases evs.len(),
{
    lemma_classification_stable(w, evs);
    if evs.len() > 0 {
        lemma_unknown_terminal_silent(w, evs.drop_last());
        assert(batch_output(w, evs) =~= Seq::<SyntheticAction>::empty());
    }
}

/// Delivering `Terminate` stops a running worker at its very next poll —
/// that is, within one fetch cycle — and the worker returns success.
pub proof fn lemma_terminate_stops_cleanly(w: Worker)
    requires
        w.wf(),
        !w.stopped,
    ensures
        spec_poll_step(w, CommandPoll::Received(BackendCommand::Terminate)).1 == Ok::<
            bool,
            ClientError,
        >(true),
        spec_poll_step(w, CommandPoll::Received(BackendCommand::Terminate)).0 == (Worker {
            stopped: true,
            ..w
        }),
        spec_poll_step(w, CommandPoll::Received(BackendCommand::Terminate)).0.wf(),
        spec_poll_step(w, CommandPoll::Received(BackendCommand::Terminate)).0.spec_phase()
            is Stopped,
{
}

} // verus!
