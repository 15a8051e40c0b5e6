use tgs_readline::keys::Verdict;
use tgs_readline::{
    Action, Color, Command, Completion, CursorShape, Effect, Event, HistoryInd, Input, KeyCode,
    KeyEvent, KeyModifiers, Line, LineCtx, LineMode, Location, MenuCommand, Motion, Next, Overlay,
    Phase, ReplaceMethod, Snapshot, SnapshotCommand, Step,
};

type Plain = Line<(), (), (), (), (), ()>;

fn shot(text: &str, cursor: usize) -> Snapshot {
    Snapshot { text: String::from(text), cursor, menu_active: false, history_len: 0 }
}

fn with_menu(text: &str, cursor: usize) -> Snapshot {
    Snapshot { text: String::from(text), cursor, menu_active: true, history_len: 0 }
}

fn with_history(text: &str, history_len: usize) -> Snapshot {
    Snapshot {
        text: String::from(text),
        cursor: text.chars().count(),
        menu_active: false,
        history_len,
    }
}

fn key(code: KeyCode, modifiers: KeyModifiers) -> Event {
    Event::Key(KeyEvent { code, modifiers })
}

fn plain(code: KeyCode) -> Event {
    key(code, KeyModifiers::Plain)
}

fn control(c: char) -> Event {
    key(KeyCode::Char(c), KeyModifiers::Control)
}

fn turn(line: &mut Plain, ctx: &mut LineCtx, input: Input, shot: &Snapshot) -> Step {
    assert!(line.accepts(ctx, &input, shot));
    line.read_events(ctx, input, shot)
}

/// The step that an event leads to once it is handed on.
fn press(line: &mut Plain, ctx: &mut LineCtx, event: Event, shot: &Snapshot) -> Step {
    let step = turn(line, ctx, Input::Event { event, bound: false }, shot);
    assert_eq!(step, Step { effects: vec![], next: Next::Perform });
    turn(line, ctx, Input::Ready, shot)
}

/// Goes on from a handled event to the next one.
fn settle(line: &mut Plain, ctx: &mut LineCtx, shot: &Snapshot) {
    assert_eq!(*ctx.phase(), Phase::Settled);
    turn(line, ctx, Input::Ready, shot);
    let nothing = Input::Preview { selection: None, suggestion: None };
    let step = turn(line, ctx, nothing, shot);
    assert_eq!(step, Step { effects: vec![], next: Next::Paint(vec![]) });
    assert_eq!(*ctx.phase(), Phase::Idle);
}

/// A reading in which the word before the cursor was taken up for completion, to no avail.
fn completing(text: &str) -> (Plain, LineCtx) {
    let mut line = Plain::default();
    let mut ctx = LineCtx::new();
    let shot = shot(text, text.chars().count());
    press(&mut line, &mut ctx, plain(KeyCode::Tab), &shot);
    turn(&mut line, &mut ctx, Input::Completions(vec![]), &shot);
    turn(&mut line, &mut ctx, Input::Items(vec![]), &shot);
    (line, ctx)
}

/// The effects of a key in a fresh reading.
fn effects_of(event: Event, shot: &Snapshot) -> Vec<Effect> {
    let mut line = Plain::default();
    let mut ctx = LineCtx::new();
    let step = press(&mut line, &mut ctx, event, shot);
    assert_eq!(step.next, Next::Perform);
    assert_eq!(*ctx.phase(), Phase::Settled);
    step.effects
}

fn completion(accepted: &str, replace_method: ReplaceMethod) -> Completion {
    Completion {
        display: format!("<{}>", accepted),
        accepted: String::from(accepted),
        replace_method,
    }
}

#[test]
fn a_reading_starts_in_insert_mode() {
    let ctx = LineCtx::new();
    assert_eq!(ctx.mode(), LineMode::Insert);
    assert_eq!(ctx.history_ind(), HistoryInd::Prompt);
    assert_eq!(ctx.lines, "");
    assert_eq!(ctx.suggestion, None);
    assert_eq!(*ctx.phase(), Phase::Idle);
}

#[test]
fn a_suggestion_can_be_shown_and_taken_away() {
    let mut ctx = LineCtx::new();
    ctx.update_suggestion(Some(String::from("ls -l")));
    assert_eq!(ctx.suggestion, Some(String::from("ls -l")));
    ctx.update_suggestion(None);
    assert_eq!(ctx.suggestion, None);
}

#[test]
fn characters_are_inserted() {
    assert_eq!(
        effects_of(plain(KeyCode::Char('x')), &shot("ab", 1)),
        vec![Effect::Insert(String::from("x"))]
    );
    assert_eq!(
        effects_of(key(KeyCode::Char('X'), KeyModifiers::Shift), &shot("", 0)),
        vec![Effect::Insert(String::from("X"))]
    );
    // a combination without a meaning types its character
    assert_eq!(effects_of(control('z'), &shot("", 0)), vec![Effect::Insert(String::from("z"))]);
}

#[test]
fn the_cursor_moves_within_the_text() {
    let before = vec![Effect::MoveCursor(Location::Before)];
    let after = vec![Effect::MoveCursor(Location::After)];
    assert_eq!(effects_of(plain(KeyCode::Left), &shot("ab", 1)), before);
    assert_eq!(effects_of(plain(KeyCode::Left), &shot("ab", 0)), vec![]);
    assert_eq!(effects_of(plain(KeyCode::Right), &shot("ab", 1)), after);
    assert_eq!(effects_of(plain(KeyCode::Right), &shot("ab", 2)), vec![]);
    // characters, not bytes
    assert_eq!(effects_of(plain(KeyCode::Right), &shot("\u{e9}\u{e9}", 2)), vec![]);
    assert_eq!(
        effects_of(control('a'), &shot("ab", 1)),
        vec![Effect::MoveCursor(Location::Front)]
    );
    assert_eq!(
        effects_of(control('e'), &shot("ab", 1)),
        vec![Effect::MoveCursor(Location::Back)]
    );
}

#[test]
fn backspace_needs_a_character_before_the_cursor() {
    let deleted = vec![Effect::Delete(Location::Before, Location::Cursor)];
    assert_eq!(effects_of(plain(KeyCode::Backspace), &shot("ab", 2)), deleted);
    assert_eq!(effects_of(control('h'), &shot("ab", 2)), deleted);
    assert_eq!(effects_of(plain(KeyCode::Backspace), &shot("ab", 0)), vec![]);
    assert_eq!(effects_of(plain(KeyCode::Backspace), &shot("", 0)), vec![]);
}

#[test]
fn a_word_is_deleted_backwards() {
    assert_eq!(
        effects_of(control('w'), &shot("ab cd", 5)),
        vec![Effect::Delete(Location::BackWord, Location::Cursor)]
    );
    assert_eq!(effects_of(control('w'), &shot("ab", 0)), vec![]);
}

#[test]
fn other_keys_do_nothing() {
    assert_eq!(effects_of(plain(KeyCode::Other), &shot("ab", 1)), vec![]);
    assert_eq!(effects_of(key(KeyCode::Left, KeyModifiers::Shift), &shot("ab", 1)), vec![]);
    assert_eq!(effects_of(Event::Other, &shot("ab", 1)), vec![]);
}

#[test]
fn escape_switches_to_normal_mode() {
    let mut line = Plain::default();
    let mut ctx = LineCtx::new();
    let step = press(&mut line, &mut ctx, plain(KeyCode::Esc), &shot("ab", 1));
    assert_eq!(
        step.effects,
        vec![
            Effect::CursorStyle(CursorShape::BlinkingBlock),
            Effect::ModeHooks(LineMode::Normal),
            Effect::Snapshots(SnapshotCommand::Add),
        ]
    );
    assert_eq!(ctx.mode(), LineMode::Normal);
}

#[test]
fn pasted_text_is_inserted() {
    let mut line = Plain::default();
    let mut ctx = LineCtx::new();
    let event = Event::Paste(String::from("two\nlines"));
    let step = turn(&mut line, &mut ctx, Input::Event { event, bound: false }, &shot("", 0));
    assert_eq!(step.effects, vec![Effect::Insert(String::from("two\nlines"))]);
    assert_eq!(step.next, Next::Perform);
}

#[test]
fn a_resized_window_is_noted() {
    let mut line = Plain::default();
    let mut ctx = LineCtx::new();
    let event = Event::Resize(100, 40);
    let step = turn(&mut line, &mut ctx, Input::Event { event, bound: false }, &shot("", 0));
    assert_eq!(step, Step { effects: vec![], next: Next::Perform });
    assert_eq!(line.painter.get_term_size(), (100, 40));
}

#[test]
fn enter_submits_a_complete_command() {
    let mut line = Plain::default();
    let mut ctx = LineCtx::new();
    let enter = Input::Event { event: plain(KeyCode::Enter), bound: false };
    let step = turn(&mut line, &mut ctx, enter, &shot("ls", 2));
    assert_eq!(step.effects, vec![Effect::Snapshots(SnapshotCommand::Clear), Effect::Newline]);
    assert_eq!(step.next, Next::CheckLine(String::from("ls")));
    let step = turn(&mut line, &mut ctx, Input::LineCheck(false), &shot("ls", 2));
    assert_eq!(step.effects, vec![Effect::AddHistory(String::from("ls"))]);
    assert_eq!(step.next, Next::Finish(String::from("ls")));
    assert_eq!(*ctx.phase(), Phase::Ended);
    assert!(!line.accepts(&ctx, &Input::Ready, &shot("ls", 2)));
}

#[test]
fn an_empty_command_does_not_enter_history() {
    let mut line = Plain::default();
    let mut ctx = LineCtx::new();
    let enter = Input::Event { event: plain(KeyCode::Enter), bound: false };
    turn(&mut line, &mut ctx, enter, &shot("", 0));
    let step = turn(&mut line, &mut ctx, Input::LineCheck(false), &shot("", 0));
    assert_eq!(step, Step { effects: vec![], next: Next::Finish(String::new()) });
}

#[test]
fn an_incomplete_command_goes_on() {
    let mut line = Plain::default();
    let mut ctx = LineCtx::new();
    for text in ["for i in 1", "do"] {
        let enter = Input::Event { event: plain(KeyCode::Enter), bound: false };
        turn(&mut line, &mut ctx, enter, &shot(text, 0));
        let step = turn(&mut line, &mut ctx, Input::LineCheck(true), &shot(text, 0));
        assert_eq!(step, Step { effects: vec![Effect::ClearBuffer], next: Next::Perform });
        let step = turn(&mut line, &mut ctx, Input::Ready, &shot("", 0));
        assert_eq!(step, Step { effects: vec![], next: Next::Perform });
        let step = turn(&mut line, &mut ctx, Input::Ready, &shot("", 0));
        assert_eq!(
            step.next,
            Next::Render { command: ctx.lines.clone(), skip: ctx.lines.len() }
        );
        let nothing = Input::Preview { selection: None, suggestion: None };
        let step = turn(&mut line, &mut ctx, nothing, &shot("", 0));
        assert_eq!(step.next, Next::Paint(vec![]));
    }
    assert_eq!(ctx.lines, "for i in 1\ndo\n");
    assert_eq!(ctx.get_full_command("done"), "for i in 1\ndo\ndone");
    let submit = Input::Event { event: control('j'), bound: false };
    let step = turn(&mut line, &mut ctx, submit, &shot("done", 4));
    assert_eq!(step.next, Next::CheckLine(String::from("for i in 1\ndo\ndone")));
    let step = turn(&mut line, &mut ctx, Input::LineCheck(false), &shot("done", 4));
    assert_eq!(step.next, Next::Finish(String::from("for i in 1\ndo\ndone")));
}

#[test]
fn control_d_exits_on_no_text() {
    let mut line = Plain::default();
    let mut ctx = LineCtx::new();
    let event = Input::Event { event: control('d'), bound: false };
    let step = turn(&mut line, &mut ctx, event, &shot("", 0));
    assert_eq!(step, Step { effects: vec![], next: Next::Exit });
    assert_eq!(*ctx.phase(), Phase::Ended);
}

#[test]
fn control_d_is_enter_on_a_text() {
    let mut line = Plain::default();
    let mut ctx = LineCtx::new();
    let event = Input::Event { event: control('d'), bound: false };
    let step = turn(&mut line, &mut ctx, event, &shot("for", 1));
    assert_eq!(step.effects, vec![Effect::Snapshots(SnapshotCommand::Clear), Effect::Newline]);
    assert_eq!(step.next, Next::CheckLine(String::from("for")));
    // another line is needed: this one is stored, and nothing is typed
    let step = turn(&mut line, &mut ctx, Input::LineCheck(true), &shot("for", 1));
    assert_eq!(step, Step { effects: vec![Effect::ClearBuffer], next: Next::Perform });
    assert_eq!(ctx.lines, "for\n");
    let step = turn(&mut line, &mut ctx, Input::Ready, &shot("", 0));
    assert_eq!(step, Step { effects: vec![], next: Next::Perform });
    settle(&mut line, &mut ctx, &shot("", 0));
    let event = Input::Event { event: control('d'), bound: false };
    turn(&mut line, &mut ctx, event, &shot("done", 4));
    let step = turn(&mut line, &mut ctx, Input::LineCheck(false), &shot("done", 4));
    assert_eq!(step.effects, vec![Effect::AddHistory(String::from("for\ndone"))]);
    assert_eq!(step.next, Next::Finish(String::from("for\ndone")));
}

#[test]
fn control_d_is_the_menus_enter_while_it_is_active() {
    let mut line = Plain::default();
    let mut ctx = LineCtx::new();
    let event = control('d');
    assert_eq!(
        line.handle_standard_keys(&event, &with_menu("ls", 1)),
        (vec![], Verdict::Proceed)
    );
    let pressed = Input::Event { event, bound: false };
    let step = turn(&mut line, &mut ctx, pressed, &with_menu("ls", 1));
    assert_eq!(step, Step { effects: vec![], next: Next::Perform });
    assert_eq!(*ctx.phase(), Phase::Dispatch(plain(KeyCode::Enter)));
    let step = turn(&mut line, &mut ctx, Input::Ready, &with_menu("ls", 1));
    assert_eq!(step, Step { effects: vec![], next: Next::AcceptItem });
    // without a text it exits there too
    let mut ctx = LineCtx::new();
    let pressed = Input::Event { event: control('d'), bound: false };
    let step = turn(&mut line, &mut ctx, pressed, &with_menu("", 0));
    assert_eq!(step, Step { effects: vec![], next: Next::Exit });
}

#[test]
fn a_bound_key_ends_the_reading() {
    let mut line = Plain::default();
    let mut ctx = LineCtx::new();
    let event = Input::Event { event: control('x'), bound: true };
    let step = turn(&mut line, &mut ctx, event, &shot("ab", 1));
    assert_eq!(step.effects, vec![Effect::AddHistory(String::from("ab"))]);
    assert_eq!(step.next, Next::Finish(String::from("ab")));
    // only keys can be bound
    let mut ctx = LineCtx::new();
    let event = Input::Event { event: Event::Resize(1, 2), bound: true };
    let step = turn(&mut line, &mut ctx, event, &shot("ab", 1));
    assert_eq!(step.next, Next::Perform);
}

#[test]
fn history_gives_the_line_back() {
    let mut line = Plain::default();
    let mut ctx = LineCtx::new();
    let shown = |effects: Vec<Effect>, effect: Effect| {
        assert_eq!(effects, vec![Effect::ClearBuffer, effect]);
    };
    let ups = [("typed", 0), ("newest", 1), ("oldest", 1)];
    for (text, i) in ups {
        let shot = with_history(text, 2);
        let step = press(&mut line, &mut ctx, plain(KeyCode::Up), &shot);
        shown(step.effects, Effect::InsertHistory(i));
        settle(&mut line, &mut ctx, &shot);
    }
    let shot = with_history("oldest", 2);
    let step = press(&mut line, &mut ctx, plain(KeyCode::Down), &shot);
    shown(step.effects, Effect::InsertHistory(0));
    settle(&mut line, &mut ctx, &shot);
    let step = press(&mut line, &mut ctx, plain(KeyCode::Down), &with_history("newest", 2));
    shown(step.effects, Effect::Insert(String::from("typed")));
    assert_eq!(ctx.history_ind(), HistoryInd::Prompt);
}

#[test]
fn an_empty_history_puts_the_text_back() {
    let mut line = Plain::default();
    let mut ctx = LineCtx::new();
    let shot = with_history("typed", 0);
    for code in [KeyCode::Up, KeyCode::Up, KeyCode::Down, KeyCode::Down] {
        let step = press(&mut line, &mut ctx, plain(code), &shot);
        assert_eq!(
            step.effects,
            vec![Effect::ClearBuffer, Effect::Insert(String::from("typed"))]
        );
        settle(&mut line, &mut ctx, &shot);
    }
}

#[test]
fn down_at_the_prompt_shows_the_saved_line() {
    assert_eq!(
        effects_of(plain(KeyCode::Down), &with_history("typed", 3)),
        vec![Effect::ClearBuffer, Effect::Insert(String::new())]
    );
}

/// A reading that shows the only line of the history.
fn showing_history() -> (Plain, LineCtx) {
    let mut line = Plain::default();
    let mut ctx = LineCtx::new();
    let shot = with_history("", 1);
    press(&mut line, &mut ctx, plain(KeyCode::Up), &shot);
    settle(&mut line, &mut ctx, &shot);
    assert_eq!(ctx.history_ind(), HistoryInd::Line(0));
    (line, ctx)
}

#[test]
fn going_up_in_a_history_that_is_gone_is_refused() {
    let (mut line, mut ctx) = showing_history();
    let up = Input::Event { event: plain(KeyCode::Up), bound: false };
    turn(&mut line, &mut ctx, up, &with_history("", 0));
    assert!(!line.accepts(&ctx, &Input::Ready, &with_history("", 0)));
    assert!(line.accepts(&ctx, &Input::Ready, &with_history("", 1)));
    // the same motion in normal mode
    let (mut line, mut ctx) = showing_history();
    let shot = with_history("", 1);
    press(&mut line, &mut ctx, plain(KeyCode::Esc), &shot);
    settle(&mut line, &mut ctx, &shot);
    press(&mut line, &mut ctx, plain(KeyCode::Char('k')), &shot);
    let command = Command { repeat: 1, action: Action::Move(Motion::Up) };
    turn(&mut line, &mut ctx, Input::Parsed(Some(command)), &shot);
    turn(&mut line, &mut ctx, Input::Executed(None), &shot);
    assert!(!line.accepts(&ctx, &Input::Ready, &with_history("", 0)));
    assert!(line.accepts(&ctx, &Input::Ready, &shot));
}

/// Tab on a text, up to the menu's offer.
fn complete(line: &mut Plain, ctx: &mut LineCtx, shot: &Snapshot, offer: Vec<Completion>) -> Step {
    let step = press(line, ctx, plain(KeyCode::Tab), shot);
    assert_eq!(step.next, Next::Complete(vec![String::from("git"), String::from("ch")]));
    assert_eq!(ctx.current_word(), "ch");
    let step = turn(line, ctx, Input::Completions(offer.clone()), shot);
    let items = offer.iter().map(|c| (c.display.clone(), c.clone())).collect::<Vec<_>>();
    assert_eq!(
        step,
        Step {
            effects: vec![Effect::SetItems(items), Effect::Menu(MenuCommand::Activate)],
            next: Next::ListItems,
        }
    );
    turn(line, ctx, Input::Items(offer), shot)
}

#[test]
fn tab_without_completions_closes_the_menu() {
    let mut line = Plain::default();
    let mut ctx = LineCtx::new();
    let step = complete(&mut line, &mut ctx, &shot("git ch x", 6), vec![]);
    assert_eq!(step.effects, vec![Effect::Menu(MenuCommand::Disactivate)]);
}

#[test]
fn tab_accepts_a_single_completion() {
    let mut line = Plain::default();
    let mut ctx = LineCtx::new();
    let offer = vec![completion("checkout", ReplaceMethod::Replace)];
    let step = complete(&mut line, &mut ctx, &shot("git ch x", 6), offer);
    assert_eq!(
        step.effects,
        vec![
            Effect::MoveCursor(Location::Behind(2)),
            Effect::Delete(Location::Cursor, Location::Ahead(2)),
        ]
    );
    assert_eq!(step.next, Next::Perform);
    // the word is the current one until it is out of the text
    assert_eq!(ctx.current_word(), "ch");
    let step = turn(&mut line, &mut ctx, Input::Ready, &shot("git  x", 4));
    assert_eq!(
        step.effects,
        vec![
            Effect::Insert(String::from("checkout")),
            Effect::Menu(MenuCommand::Disactivate),
        ]
    );
    assert_eq!(ctx.current_word(), "");
    settle(&mut line, &mut ctx, &shot("git checkout x", 12));
    // one that is appended goes in at once
    let mut ctx = LineCtx::new();
    let offer = vec![completion("eckout", ReplaceMethod::Append)];
    let step = complete(&mut line, &mut ctx, &shot("git ch x", 6), offer);
    assert_eq!(
        step.effects,
        vec![
            Effect::Insert(String::from("eckout")),
            Effect::Menu(MenuCommand::Disactivate),
        ]
    );
    assert_eq!(*ctx.phase(), Phase::Settled);
}

#[test]
fn tab_leaves_a_choice_open() {
    let mut line = Plain::default();
    let mut ctx = LineCtx::new();
    let offer = vec![
        completion("checkout", ReplaceMethod::Replace),
        completion("cherry", ReplaceMethod::Append),
    ];
    let step = complete(&mut line, &mut ctx, &shot("git ch x", 6), offer);
    assert_eq!(step.effects, vec![Effect::Menu(MenuCommand::Activate)]);
    assert_eq!(ctx.current_word(), "ch");
}

#[test]
fn an_appended_completion_keeps_the_word() {
    let (line, mut ctx) = completing("git ch");
    let item = completion("eckout", ReplaceMethod::Append);
    let effects = line.accept_completion(&mut ctx, item, false);
    assert_eq!(effects, vec![Effect::Insert(String::from("eckout"))]);
    assert_eq!(ctx.current_word(), "ch");
}

#[test]
fn a_replaced_word_goes_by_its_characters() {
    for (text, word, count) in [("x \u{e9}", "\u{e9}", 1), ("\u{4f60}a", "\u{4f60}a", 2)] {
        let (line, mut ctx) = completing(text);
        assert_eq!(ctx.current_word(), word);
        let item = completion("\u{e9}t\u{e9}", ReplaceMethod::Replace);
        let effects = line.accept_completion(&mut ctx, item, false);
        assert_eq!(
            effects,
            vec![
                Effect::MoveCursor(Location::Behind(count)),
                Effect::Delete(Location::Cursor, Location::Ahead(count)),
            ]
        );
        assert_eq!(ctx.current_word(), word);
        let accepted = String::from("\u{e9}t\u{e9}");
        assert_eq!(
            *ctx.phase(),
            Phase::Replacing { accepted: accepted.clone(), closes: false }
        );
        let effects = line.replace_word(&mut ctx, accepted.clone(), false);
        assert_eq!(effects, vec![Effect::Insert(accepted)]);
        assert_eq!(ctx.current_word(), "");
        assert_eq!(*ctx.phase(), Phase::Settled);
    }
}

/// The step of an event while the menu is active.
fn in_menu(event: Event) -> Step {
    let mut line = Plain::default();
    let mut ctx = LineCtx::new();
    press(&mut line, &mut ctx, event, &with_menu("ab", 1))
}

#[test]
fn the_menu_has_its_own_keys() {
    let does = |command| Step { effects: vec![Effect::Menu(command)], next: Next::Perform };
    assert_eq!(in_menu(plain(KeyCode::Esc)), does(MenuCommand::Disactivate));
    assert_eq!(in_menu(plain(KeyCode::Up)), does(MenuCommand::Previous));
    assert_eq!(
        in_menu(key(KeyCode::Tab, KeyModifiers::Shift)),
        does(MenuCommand::Previous)
    );
    assert_eq!(in_menu(plain(KeyCode::Down)), does(MenuCommand::Next));
    assert_eq!(in_menu(plain(KeyCode::Tab)), does(MenuCommand::Next));
}

#[test]
fn enter_accepts_the_item_of_the_menu() {
    let (mut line, mut ctx) = completing("ab");
    settle(&mut line, &mut ctx, &with_menu("ab", 2));
    let step = press(&mut line, &mut ctx, plain(KeyCode::Enter), &with_menu("ab", 2));
    assert_eq!(step, Step { effects: vec![], next: Next::AcceptItem });
    let item = completion("abc", ReplaceMethod::Replace);
    let step = turn(&mut line, &mut ctx, Input::Accepted(Some(item)), &with_menu("ab", 2));
    assert_eq!(
        step.effects,
        vec![
            Effect::MoveCursor(Location::Behind(2)),
            Effect::Delete(Location::Cursor, Location::Ahead(2)),
        ]
    );
    assert_eq!(step.next, Next::Perform);
    let step = turn(&mut line, &mut ctx, Input::Ready, &with_menu("", 0));
    assert_eq!(step.effects, vec![Effect::Insert(String::from("abc"))]);
    assert_eq!(step.next, Next::Perform);
    settle(&mut line, &mut ctx, &with_menu("abc", 3));
    press(&mut line, &mut ctx, plain(KeyCode::Enter), &with_menu("abc", 3));
    let step = turn(&mut line, &mut ctx, Input::Accepted(None), &with_menu("abc", 3));
    assert_eq!(step, Step { effects: vec![], next: Next::Perform });
}

#[test]
fn other_keys_close_the_menu_and_count() {
    assert_eq!(
        in_menu(plain(KeyCode::Char('c'))).effects,
        vec![Effect::Menu(MenuCommand::Disactivate), Effect::Insert(String::from("c"))]
    );
    assert_eq!(
        in_menu(plain(KeyCode::Left)).effects,
        vec![Effect::Menu(MenuCommand::Disactivate), Effect::MoveCursor(Location::Before)]
    );
    assert_eq!(
        in_menu(Event::Other).effects,
        vec![Effect::Menu(MenuCommand::Disactivate)]
    );
}

fn in_normal_mode() -> (Plain, LineCtx) {
    let mut line = Plain::default();
    let mut ctx = LineCtx::new();
    press(&mut line, &mut ctx, plain(KeyCode::Esc), &shot("", 0));
    settle(&mut line, &mut ctx, &shot("", 0));
    (line, ctx)
}

#[test]
fn keys_of_normal_mode_add_up_until_they_make_a_command() {
    let (mut line, mut ctx) = in_normal_mode();
    let step = press(&mut line, &mut ctx, plain(KeyCode::Char('2')), &shot("ab cd", 0));
    assert_eq!(step.next, Next::Parse(String::from("2")));
    let step = turn(&mut line, &mut ctx, Input::Parsed(None), &shot("ab cd", 0));
    assert_eq!(step, Step { effects: vec![], next: Next::Perform });
    assert_eq!(line.normal_keys, "2");
    settle(&mut line, &mut ctx, &shot("ab cd", 0));
    let step = press(&mut line, &mut ctx, plain(KeyCode::Char('x')), &shot("ab cd", 0));
    assert_eq!(step.next, Next::Parse(String::from("2x")));
}

#[test]
fn escape_drops_the_keys_of_normal_mode() {
    let (mut line, mut ctx) = in_normal_mode();
    line.normal_keys = String::from("2d");
    let step = press(&mut line, &mut ctx, plain(KeyCode::Esc), &shot("ab", 0));
    assert_eq!(step, Step { effects: vec![], next: Next::Perform });
    assert_eq!(line.normal_keys, "");
    assert_eq!(ctx.mode(), LineMode::Normal);
}

/// Carries a command out, with the same mode for each repetition, and gives its effects.
fn run(command: Command, mode: Option<LineMode>, shot: &Snapshot) -> (Vec<Effect>, usize, LineCtx) {
    let (mut line, mut ctx) = in_normal_mode();
    press(&mut line, &mut ctx, plain(KeyCode::Char('k')), shot);
    assert_eq!(line.normal_keys, "k");
    let mut effects = vec![];
    let mut executed = 0;
    let mut step = turn(&mut line, &mut ctx, Input::Parsed(Some(command)), shot);
    while step.next == Next::Execute(command.action) {
        effects.append(&mut step.effects);
        executed += 1;
        let mut switched = turn(&mut line, &mut ctx, Input::Executed(mode), shot);
        assert_eq!(switched.next, Next::Perform);
        effects.append(&mut switched.effects);
        step = turn(&mut line, &mut ctx, Input::Ready, shot);
    }
    effects.append(&mut step.effects);
    assert_eq!(step.next, Next::Perform);
    if executed > 0 {
        // the keys are kept until all that the command does is carried out
        assert_eq!(line.normal_keys, "k");
        assert_eq!(*ctx.phase(), Phase::Repeated);
    }
    let step = turn(&mut line, &mut ctx, Input::Ready, shot);
    assert_eq!(step.next, Next::Render { command: shot.text.clone(), skip: 0 });
    assert_eq!(line.normal_keys, "");
    (effects, executed, ctx)
}

#[test]
fn a_command_runs_as_often_as_it_says() {
    let add = Effect::Snapshots(SnapshotCommand::Add);
    let command = Command { repeat: 3, action: Action::Other };
    let (effects, executed, _) = run(command, None, &shot("abc", 0));
    assert_eq!((effects, executed), (vec![add.clone(), add.clone(), add], 3));
    let command = Command { repeat: 0, action: Action::Other };
    let (effects, executed, _) = run(command, None, &shot("abc", 0));
    assert_eq!((effects, executed), (vec![], 0));
}

#[test]
fn undo_and_redo_go_through_the_record() {
    let command = Command { repeat: 1, action: Action::Undo };
    let (effects, _, _) = run(command, None, &shot("abc", 0));
    assert_eq!(effects, vec![Effect::Snapshots(SnapshotCommand::Previous)]);
    let command = Command { repeat: 1, action: Action::Redo };
    let (effects, _, _) = run(command, None, &shot("abc", 0));
    assert_eq!(effects, vec![Effect::Snapshots(SnapshotCommand::Next)]);
}

#[test]
fn vertical_motions_browse_history() {
    let command = Command { repeat: 2, action: Action::Move(Motion::Up) };
    let (effects, _, ctx) = run(command, None, &with_history("typed", 5));
    assert_eq!(
        effects,
        vec![
            Effect::ClearBuffer,
            Effect::InsertHistory(0),
            Effect::ClearBuffer,
            Effect::InsertHistory(1),
        ]
    );
    assert_eq!(ctx.saved_line(), "typed");
    let command = Command { repeat: 1, action: Action::Move(Motion::Down) };
    let (effects, _, _) = run(command, None, &with_history("typed", 5));
    assert_eq!(effects, vec![Effect::ClearBuffer, Effect::Insert(String::new())]);
    let command = Command { repeat: 4, action: Action::Move(Motion::Other) };
    let (effects, executed, _) = run(command, None, &with_history("typed", 5));
    assert_eq!((effects, executed), (vec![], 4));
}

#[test]
fn an_action_can_switch_the_mode() {
    let command = Command { repeat: 1, action: Action::Other };
    let (effects, _, ctx) = run(command, Some(LineMode::Insert), &shot("abc", 0));
    assert_eq!(
        effects,
        vec![
            Effect::CursorStyle(CursorShape::BlinkingBar),
            Effect::ModeHooks(LineMode::Insert),
            Effect::Snapshots(SnapshotCommand::Add),
        ]
    );
    assert_eq!(ctx.mode(), LineMode::Insert);
    let (effects, _, ctx) = run(command, Some(LineMode::Normal), &shot("abc", 0));
    assert_eq!(effects[0], Effect::CursorStyle(CursorShape::BlinkingBlock));
    assert_eq!(effects[1], Effect::ModeHooks(LineMode::Normal));
    assert_eq!(ctx.mode(), LineMode::Normal);
}

fn previewing(word: &str) -> (Plain, LineCtx) {
    let (mut line, mut ctx) = completing(word);
    turn(&mut line, &mut ctx, Input::Ready, &shot(word, 0));
    assert_eq!(*ctx.phase(), Phase::Rendering);
    (line, ctx)
}

#[test]
fn a_selection_shows_what_it_would_add() {
    let (mut line, mut ctx) = previewing("ch");
    let input =
        Input::Preview { selection: Some(String::from("checkout")), suggestion: None };
    let step = turn(&mut line, &mut ctx, input.clone(), &with_menu("git ch", 6));
    let shown = Overlay { text: String::from("eckout"), color: Color::Red };
    assert_eq!(step.next, Next::Paint(vec![shown]));
    assert_eq!(*ctx.phase(), Phase::Idle);
    // nothing is selected in a menu that is not active
    let (mut line, mut ctx) = previewing("ch");
    let step = turn(&mut line, &mut ctx, input, &shot("git ch", 6));
    assert_eq!(step.next, Next::Paint(vec![]));
}

#[test]
fn a_suggestion_shows_how_it_goes_on() {
    let (mut line, mut ctx) = previewing("ch");
    let input = Input::Preview {
        selection: Some(String::from("cherry")),
        suggestion: Some(String::from("checkout")),
    };
    let step = turn(&mut line, &mut ctx, input.clone(), &with_menu("git ch", 6));
    assert_eq!(
        step.next,
        Next::Extend { input: String::from("git ch"), suffix: String::from("eckout") }
    );
    let end = Input::Extension(Some(String::from("eckout ")));
    let step = turn(&mut line, &mut ctx, end, &with_menu("git ch", 6));
    let selected = Overlay { text: String::from("erry"), color: Color::Red };
    let suggested = Overlay { text: String::from("eckout "), color: Color::DarkGrey };
    assert_eq!(step.next, Next::Paint(vec![selected.clone(), suggested]));
    // the whole suggestion where it does not go on
    let (mut line, mut ctx) = previewing("ch");
    turn(&mut line, &mut ctx, input, &with_menu("git ch", 6));
    let step = turn(&mut line, &mut ctx, Input::Extension(None), &with_menu("git ch", 6));
    let suggested = Overlay { text: String::from("checkout"), color: Color::DarkGrey };
    assert_eq!(step.next, Next::Paint(vec![selected, suggested]));
}

#[test]
fn previews_that_cannot_be_cut_are_refused() {
    let (line, ctx) = previewing("ch");
    let short = Input::Preview { selection: None, suggestion: Some(String::from("c")) };
    assert!(!line.accepts(&ctx, &short, &shot("", 0)));
    let inside = Input::Preview { selection: Some(String::from("a\u{e9}")), suggestion: None };
    assert!(!line.accepts(&ctx, &inside, &with_menu("", 0)));
    assert!(line.accepts(&ctx, &inside, &shot("", 0)));
}

#[test]
fn answers_to_other_questions_are_refused() {
    let line = Plain::default();
    let ctx = LineCtx::new();
    assert!(!line.accepts(&ctx, &Input::Ready, &shot("", 0)));
    assert!(!line.accepts(&ctx, &Input::LineCheck(true), &shot("", 0)));
    let event = Input::Event { event: Event::Other, bound: false };
    assert!(line.accepts(&ctx, &event, &shot("", 0)));
    // a cursor behind the text
    assert!(!line.accepts(&ctx, &event, &shot("ab", 3)));
}
