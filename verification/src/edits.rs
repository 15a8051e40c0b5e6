//! What the editing effects mean for the edited text, and what the keys make of it.

use crate::ctx::{Input, LineState, Snapshot};
use crate::effect::{Completion, CompletionView, EffectView, Location, SnapshotCommand};
use crate::event::{Event, KeyCode, KeyEvent, KeyModifiers};
use crate::history::HistoryInd;
use crate::keys;
use crate::laws;
use crate::line::LineView;
use crate::session;
use crate::turn_laws;
use vstd::prelude::*;

verus! {

/// What the meaning of an effect depends on besides the edited text.
pub struct Surroundings {
    /// The lines of the history, the most recent one first
    pub history: Seq<Seq<char>>,
    /// The number of characters before the word before the cursor
    pub word_start: int,
}

/// A text with a cursor between its characters.
pub struct Edited {
    pub text: Seq<char>,
    pub cursor: int,
}

impl Edited {
    /// The number of characters before a place.
    pub open spec fn place(self, location: Location, around: Surroundings) -> int {
        match location {
            Location::Cursor => self.cursor,
            Location::Before => self.cursor - 1,
            Location::After => self.cursor + 1,
            Location::Front => 0,
            Location::Back => self.text.len() as int,
            Location::BackWord => around.word_start,
            Location::Behind(n) => self.cursor - n,
            Location::Ahead(n) => self.cursor + n,
        }
    }

    /// Whether a place is in the text.
    pub open spec fn has(self, location: Location, around: Surroundings) -> bool {
        0 <= self.place(location, around) <= self.text.len()
    }

    /// Whether an effect stays in the text and deletes forwards.
    pub open spec fn admits(self, effect: EffectView, around: Surroundings) -> bool {
        match effect {
            EffectView::MoveCursor(to) => self.has(to, around),
            EffectView::Delete(from, to) => {
                &&& self.has(from, around)
                &&& self.has(to, around)
                &&& self.place(from, around) <= self.place(to, around)
            },
            _ => true,
        }
    }

    /// The text with another text at the cursor, which then is behind it.
    pub open spec fn with(self, inserted: Seq<char>) -> Edited {
        Edited {
            text: self.text.take(self.cursor) + inserted + self.text.skip(self.cursor),
            cursor: self.cursor + inserted.len(),
        }
    }

    /// The text after an effect, with the cursor behind an inserted text and at the place of a
    /// deleted one. `None` where the effect leaves the text, where the history lacks the line,
    /// and where an earlier state comes back, which only the record of them can tell.
    pub open spec fn after(self, effect: EffectView, around: Surroundings) -> Option<Edited> {
        if !self.admits(effect, around) {
            None
        } else {
            match effect {
                EffectView::Insert(inserted) => Some(self.with(inserted)),
                EffectView::InsertHistory(i) => if i < around.history.len() {
                    Some(self.with(around.history[i as int]))
                } else {
                    None
                },
                EffectView::MoveCursor(to) => Some(
                    Edited { text: self.text, cursor: self.place(to, around) },
                ),
                EffectView::Delete(from, to) => Some(
                    Edited {
                        text: self.text.take(self.place(from, around)) + self.text.skip(
                            self.place(to, around),
                        ),
                        cursor: self.place(from, around),
                    },
                ),
                EffectView::ClearBuffer => Some(Edited { text: seq![], cursor: 0 }),
                EffectView::Snapshots(SnapshotCommand::Previous) => None,
                EffectView::Snapshots(SnapshotCommand::Next) => None,
                _ => Some(self),
            }
        }
    }

    /// The text after some effects, where each of them has a meaning.
    pub open spec fn after_all(self, effects: Seq<EffectView>, around: Surroundings) -> Option<
        Edited,
    >
        decreases effects.len(),
    {
        if effects.len() == 0 {
            Some(self)
        } else {
            match self.after_all(effects.drop_last(), around) {
                Some(before) => before.after(effects.last(), around),
                None => None,
            }
        }
    }
}

/// The edited text of a snapshot.
pub open spec fn edited(shot: Snapshot) -> Edited {
    Edited { text: shot.text@, cursor: shot.cursor as int }
}

/// The text after one effect.
proof fn lemma_after_one(before: Edited, effects: Seq<EffectView>, around: Surroundings)
    requires
        effects.len() == 1,
    ensures
        before.after_all(effects, around) == before.after(effects[0], around),
{
    reveal_with_fuel(Edited::after_all, 2);
    assert(effects.drop_last() =~= seq![]);
}

/// No key of insert mode moves the cursor out of the text or deletes beyond it, where the word
/// before the cursor starts in the text.
pub proof fn keys_stay_in_text(
    line: LineView,
    ctx: LineState,
    event: Event,
    shot: Snapshot,
    around: Surroundings,
)
    requires
        shot.wf(),
        0 <= around.word_start <= shot.cursor,
    ensures
        ({
            let effects = keys::insert_keys(line, ctx, event, shot).step.effects;
            forall|i: int|
                0 <= i < effects.len() ==> edited(shot).admits(#[trigger] effects[i], around)
        }),
{
}

/// A typed character stands at the cursor, which then is behind it.
pub proof fn typing_inserts(
    line: LineView,
    ctx: LineState,
    shot: Snapshot,
    c: char,
    around: Surroundings,
)
    requires
        shot.wf(),
    ensures
        ({
            let typed = Event::Key(
                KeyEvent { code: KeyCode::Char(c), modifiers: KeyModifiers::Plain },
            );
            let out = keys::insert_keys(line, ctx, typed, shot);
            edited(shot).after_all(out.step.effects, around) == Some(
                Edited {
                    text: shot.text@.insert(shot.cursor as int, c),
                    cursor: shot.cursor + 1,
                },
            )
        }),
{
    lemma_after_one(edited(shot), seq![EffectView::Insert(seq![c])], around);
    assert(shot.text@.take(shot.cursor as int) + seq![c] + shot.text@.skip(shot.cursor as int)
        =~= shot.text@.insert(shot.cursor as int, c));
}

/// Backspace takes back what was typed last.
pub proof fn backspace_takes_typing_back(
    line: LineView,
    ctx: LineState,
    shot: Snapshot,
    c: char,
    later: Snapshot,
    around: Surroundings,
)
    requires
        shot.wf(),
        later.text@ == shot.text@.insert(shot.cursor as int, c),
        later.cursor == shot.cursor + 1,
    ensures
        ({
            let backspace = Event::Key(
                KeyEvent { code: KeyCode::Backspace, modifiers: KeyModifiers::Plain },
            );
            let out = keys::insert_keys(line, ctx, backspace, later);
            edited(later).after_all(out.step.effects, around) == Some(edited(shot))
        }),
{
    let effects = seq![EffectView::Delete(Location::Before, Location::Cursor)];
    lemma_after_one(edited(later), effects, around);
    let k = shot.cursor as int;
    assert(later.text@.take(k) + later.text@.skip(k + 1) =~= shot.text@);
}

/// Control and `w` deletes from the start of the word before the cursor up to the cursor, and
/// keeps the rest.
pub proof fn control_w_deletes_word(
    line: LineView,
    ctx: LineState,
    shot: Snapshot,
    around: Surroundings,
)
    requires
        shot.wf(),
        0 <= around.word_start <= shot.cursor,
    ensures
        ({
            let control_w = Event::Key(
                KeyEvent { code: KeyCode::Char('w'), modifiers: KeyModifiers::Control },
            );
            let out = keys::insert_keys(line, ctx, control_w, shot);
            edited(shot).after_all(out.step.effects, around) == Some(
                Edited {
                    text: shot.text@.take(around.word_start) + shot.text@.skip(
                        shot.cursor as int,
                    ),
                    cursor: around.word_start,
                },
            )
        }),
{
    if shot.cursor > 0 {
        let effects = seq![EffectView::Delete(Location::BackWord, Location::Cursor)];
        lemma_after_one(edited(shot), effects, around);
    } else {
        assert(shot.text@.take(0) + shot.text@.skip(0) =~= shot.text@);
    }
}

proof fn lemma_cleared_and_filled(
    before: Edited,
    filled: EffectView,
    line: Seq<char>,
    around: Surroundings,
)
    requires
        (Edited { text: seq![], cursor: 0 }).after(filled, around) == Some(
            (Edited { text: seq![], cursor: 0 }).with(line),
        ),
    ensures
        before.after_all(seq![EffectView::ClearBuffer, filled], around) == Some(
            Edited { text: line, cursor: line.len() as int },
        ),
{
    let effects = seq![EffectView::ClearBuffer, filled];
    assert(effects.drop_last() =~= seq![EffectView::ClearBuffer]);
    lemma_after_one(before, effects.drop_last(), around);
    let empty = Seq::<char>::empty();
    assert(empty.take(0) + line + empty.skip(0) =~= line);
}

/// Showing the line of the prompt leaves exactly the saved line, with the cursor at its end.
pub proof fn saved_line_is_put_back(ctx: LineState, before: Edited, around: Surroundings)
    requires
        ctx.history_ind is Prompt,
    ensures
        before.after_all(keys::history_effects(ctx), around) == Some(
            Edited { text: ctx.saved_line, cursor: ctx.saved_line.len() as int },
        ),
{
    lemma_cleared_and_filled(
        before,
        EffectView::Insert(ctx.saved_line),
        ctx.saved_line,
        around,
    );
}

/// Showing a line of the history leaves exactly that line, with the cursor at its end.
pub proof fn history_line_is_shown(
    ctx: LineState,
    before: Edited,
    around: Surroundings,
    i: usize,
)
    requires
        ctx.history_ind == HistoryInd::Line(i),
        i < around.history.len(),
    ensures
        before.after_all(keys::history_effects(ctx), around) == Some(
            Edited {
                text: around.history[i as int],
                cursor: around.history[i as int].len() as int,
            },
        ),
{
    lemma_cleared_and_filled(
        before,
        EffectView::InsertHistory(i),
        around.history[i as int],
        around,
    );
}

/// Going up `n` times from the prompt leaves the text of line `n - 1` of the history, or of its
/// oldest line where there are not so many.
pub proof fn up_shows_history_text(
    ctx: LineState,
    shots: Seq<Snapshot>,
    before: Edited,
    around: Surroundings,
)
    requires
        ctx.history_ind is Prompt,
        shots.len() > 0,
        around.history.len() > 0,
        forall|i: int|
            0 <= i < shots.len() ==> (#[trigger] shots[i]).history_len == around.history.len(),
    ensures
        ({
            let i = if shots.len() <= around.history.len() {
                shots.len() - 1
            } else {
                around.history.len() - 1
            };
            let line = around.history[i];
            before.after_all(keys::history_effects(laws::up_by(ctx, shots)), around) == Some(
                Edited { text: line, cursor: line.len() as int },
            )
        }),
{
    let limit = shots[0].history_len;
    laws::up_shows_older_lines(ctx, shots, limit);
    let i = if shots.len() <= around.history.len() {
        shots.len() - 1
    } else {
        around.history.len() - 1
    };
    lemma_cleared_and_filled(
        before,
        EffectView::InsertHistory(i as usize),
        around.history[i],
        around,
    );
}

/// Entering history and going down often enough leaves exactly the text that was edited when
/// history was entered.
pub proof fn browsing_gives_text_back(
    ctx: LineState,
    shots: Seq<Snapshot>,
    n: nat,
    before: Edited,
    around: Surroundings,
)
    requires
        ctx.history_ind is Prompt,
        shots.len() > 0,
        forall|i: int| 0 <= i < shots.len() ==> (#[trigger] shots[i]).history_len > 0,
        n > laws::up_by(ctx, shots).history_ind->Line_0,
    ensures
        before.after_all(
            keys::history_effects(laws::down_by(laws::up_by(ctx, shots), n)),
            around,
        ) == Some(Edited { text: shots[0].text@, cursor: shots[0].text@.len() as int }),
{
    laws::browsing_restores_line(ctx, shots, n);
    saved_line_is_put_back(laws::down_by(laws::up_by(ctx, shots), n), before, around);
}

proof fn lemma_after_both(
    before: Edited,
    first: Seq<EffectView>,
    second: Seq<EffectView>,
    around: Surroundings,
)
    ensures
        before.after_all(first + second, around) == match before.after_all(first, around) {
            Some(between) => between.after_all(second, around),
            None => None,
        },
    decreases second.len(),
{
    if second.len() == 0 {
        assert(first + second =~= first);
    } else {
        assert((first + second).drop_last() =~= first + second.drop_last());
        assert((first + second).last() == second.last());
        lemma_after_both(before, first, second.drop_last(), around);
    }
}

proof fn lemma_insertion(
    before: Edited,
    accepted: Seq<char>,
    closes: bool,
    around: Surroundings,
)
    ensures
        before.after_all(keys::insertion(accepted, closes), around) == Some(before.with(accepted)),
{
    let inserted = seq![EffectView::Insert(accepted)];
    lemma_after_one(before, inserted, around);
    if closes {
        assert(keys::insertion(accepted, closes).drop_last() =~= inserted);
    }
}

/// A completion that replaces the word at the cursor takes its place, and the text around it
/// stays.
pub proof fn completion_replaces_word(
    ctx: LineState,
    completion: CompletionView,
    closes: bool,
    before: Edited,
    start: Seq<char>,
    rest: Seq<char>,
    around: Surroundings,
)
    requires
        completion.replace_method is Replace,
        ctx.current_word.len() <= usize::MAX,
        before.text == start + ctx.current_word + rest,
        before.cursor == start.len() + ctx.current_word.len(),
    ensures
        before.after_all(keys::completion_in_full(ctx, completion, closes), around) == Some(
            Edited {
                text: start + completion.accepted + rest,
                cursor: (start.len() + completion.accepted.len()) as int,
            },
        ),
{
    let k = start.len() as int;
    let removal = keys::removal(ctx.current_word);
    assert(removal.drop_last() =~= seq![removal[0]]);
    lemma_after_one(before, removal.drop_last(), around);
    let moved = Edited { text: before.text, cursor: k };
    assert(before.after(removal[0], around) == Some(moved));
    let removed = Edited { text: start + rest, cursor: k };
    assert(before.text.take(k) + before.text.skip(k + ctx.current_word.len()) =~= start + rest);
    assert(moved.after(removal[1], around) == Some(removed));
    assert(before.after_all(removal, around) == Some(removed));
    lemma_after_both(before, removal, keys::insertion(completion.accepted, closes), around);
    lemma_insertion(removed, completion.accepted, closes, around);
    assert(removed.text.take(k) =~= start);
    assert(removed.text.skip(k) =~= rest);
}

/// A completion that is appended goes in at the cursor, and the text around it stays.
pub proof fn completion_appends(
    ctx: LineState,
    completion: CompletionView,
    closes: bool,
    before: Edited,
    start: Seq<char>,
    rest: Seq<char>,
    around: Surroundings,
)
    requires
        completion.replace_method is Append,
        before.text == start + rest,
        before.cursor == start.len(),
    ensures
        before.after_all(keys::completion_in_full(ctx, completion, closes), around) == Some(
            Edited {
                text: start + completion.accepted + rest,
                cursor: (start.len() + completion.accepted.len()) as int,
            },
        ),
{
    lemma_insertion(before, completion.accepted, closes, around);
    assert(before.text.take(start.len() as int) =~= start);
    assert(before.text.skip(start.len() as int) =~= rest);
}

/// The word that Tab takes up is the one that a replacing completion puts another in place of:
/// the text before it and the text behind the cursor stay.
pub proof fn completing_replaces_last_word(
    ctx: LineState,
    completion: CompletionView,
    closes: bool,
    shot: Snapshot,
    around: Surroundings,
)
    requires
        shot.wf(),
        completion.replace_method is Replace,
    ensures
        ({
            let word = keys::on_last_word(ctx, shot).current_word;
            let start = shot.text@.take(shot.cursor - word.len());
            edited(shot).after_all(
                keys::completion_in_full(keys::on_last_word(ctx, shot), completion, closes),
                around,
            ) == Some(
                Edited {
                    text: start + completion.accepted + shot.text@.skip(shot.cursor as int),
                    cursor: (start.len() + completion.accepted.len()) as int,
                },
            )
        }),
{
    laws::tab_completes_last_word(ctx, shot);
    let word = keys::on_last_word(ctx, shot).current_word;
    let before = shot.before_cursor();
    let start = shot.text@.take(shot.cursor - word.len());
    let rest = shot.text@.skip(shot.cursor as int);
    assert(before =~= start + word) by {
        assert(before =~= start + before.skip(before.len() - word.len()));
    }
    assert(shot.text@ =~= start + word + rest);
    completion_replaces_word(
        keys::on_last_word(ctx, shot),
        completion,
        closes,
        edited(shot),
        start,
        rest,
        around,
    );
}

/// A pasted text stands at the cursor, which then is behind it.
pub proof fn pasting_inserts(
    line: LineView,
    ctx: LineState,
    pasted: String,
    bound: bool,
    shot: Snapshot,
    around: Surroundings,
)
    requires
        ctx.phase is Idle,
        shot.wf(),
    ensures
        ({
            let event = Input::Event { event: Event::Paste(pasted), bound };
            let out = session::turn(line, ctx, event, shot);
            edited(shot).after_all(out.step.effects, around) == Some(
                Edited {
                    text: shot.text@.take(shot.cursor as int) + pasted@ + shot.text@.skip(
                        shot.cursor as int,
                    ),
                    cursor: shot.cursor + pasted@.len(),
                },
            )
        }),
{
    lemma_after_one(edited(shot), seq![EffectView::Insert(pasted@)], around);
}

/// Where a key of insert mode that changes the text or moves the cursor leaves them, through the
/// step that it leads to.
pub proof fn keys_edit_the_text(
    line: LineView,
    ctx: LineState,
    event: Event,
    shot: Snapshot,
    around: Surroundings,
)
    requires
        turn_laws::in_insert_mode(ctx, event, shot),
        shot.wf(),
        0 <= around.word_start <= shot.cursor,
    ensures
        ({
            let out = session::turn(line, ctx, Input::Ready, shot);
            let after = edited(shot).after_all(out.step.effects, around);
            let text = shot.text@;
            let k = shot.cursor as int;
            &&& event == turn_laws::plain(KeyCode::Left) ==> after == Some(
                Edited {
                    text,
                    cursor: if k > 0 {
                        k - 1
                    } else {
                        0
                    },
                },
            )
            &&& event == turn_laws::plain(KeyCode::Right) ==> after == Some(
                Edited {
                    text,
                    cursor: if k < text.len() {
                        k + 1
                    } else {
                        k
                    },
                },
            )
            &&& event == turn_laws::control('a') ==> after == Some(Edited { text, cursor: 0 })
            &&& event == turn_laws::control('e') ==> after == Some(
                Edited { text, cursor: text.len() as int },
            )
            &&& event == turn_laws::plain(KeyCode::Backspace) || event == turn_laws::control('h')
                ==> after == Some(
                if k > 0 {
                    Edited { text: text.remove(k - 1), cursor: k - 1 }
                } else {
                    edited(shot)
                },
            )
            &&& event == turn_laws::control('w') ==> after == Some(
                if k > 0 {
                    Edited {
                        text: text.take(around.word_start) + text.skip(k),
                        cursor: around.word_start,
                    }
                } else {
                    edited(shot)
                },
            )
            &&& event matches Event::Key(KeyEvent {
                code: KeyCode::Char(c),
                modifiers: KeyModifiers::Plain,
            }) ==> after == Some(Edited { text: text.insert(k, c), cursor: k + 1 })
        }),
{
    let effects = session::turn(line, ctx, Input::Ready, shot).step.effects;
    let text = shot.text@;
    let k = shot.cursor as int;
    if effects.len() == 1 {
        lemma_after_one(edited(shot), effects, around);
    }
    if k > 0 {
        assert(text.take(k - 1) + text.skip(k) =~= text.remove(k - 1));
    }
    match event {
        Event::Key(KeyEvent { code: KeyCode::Char(c), modifiers: KeyModifiers::Plain }) => {
            assert(text.take(k) + seq![c] + text.skip(k) =~= text.insert(k, c));
        },
        _ => {},
    }
}

/// A line of a command that needs another one leaves no edited text behind.
pub proof fn stored_line_leaves_no_text(
    line: LineView,
    ctx: LineState,
    shot: Snapshot,
    around: Surroundings,
)
    requires
        ctx.phase is Checking,
    ensures
        edited(shot).after_all(
            session::turn(line, ctx, Input::LineCheck(true), shot).step.effects,
            around,
        ) == Some(Edited { text: seq![], cursor: 0 }),
{
    lemma_after_one(edited(shot), seq![EffectView::ClearBuffer], around);
}

/// The item that the menu gives stands in the text behind the current word or in its place, once
/// all that it leads to is carried out.
pub proof fn given_item_stands_in_text(
    line: LineView,
    ctx: LineState,
    completion: Completion,
    shot: Snapshot,
    later: Snapshot,
    start: Seq<char>,
    rest: Seq<char>,
    around: Surroundings,
)
    requires
        ctx.phase is Accepting,
        ctx.current_word.len() <= usize::MAX,
        shot.text@ == start + ctx.current_word + rest,
        shot.cursor == start.len() + ctx.current_word.len(),
    ensures
        ({
            let first = session::turn(line, ctx, Input::Accepted(Some(completion)), shot);
            let second = session::turn(first.line, first.ctx, Input::Ready, later);
            let accepted = completion.accepted@;
            if completion.replace_method is Append {
                edited(shot).after_all(first.step.effects, around) == Some(
                    Edited {
                        text: start + ctx.current_word + accepted + rest,
                        cursor: shot.cursor + accepted.len(),
                    },
                )
            } else {
                edited(shot).after_all(first.step.effects + second.step.effects, around) == Some(
                    Edited {
                        text: start + accepted + rest,
                        cursor: (start.len() + accepted.len()) as int,
                    },
                )
            }
        }),
{
    laws::accepted_item_goes_in(line, ctx, completion, shot, later);
    let word = ctx.current_word;
    if completion.replace_method is Append {
        assert(start + word + rest =~= (start + word) + rest);
        completion_appends(ctx, completion@, false, edited(shot), start + word, rest, around);
    } else {
        completion_replaces_word(ctx, completion@, false, edited(shot), start, rest, around);
    }
}

} // verus!
