use tgs_readline::HistoryInd;

#[test]
fn up_enters_history_at_the_most_recent_line() {
    assert_eq!(HistoryInd::Prompt.up(3), HistoryInd::Line(0));
    assert_eq!(HistoryInd::Line(0).up(3), HistoryInd::Line(1));
}

#[test]
fn up_stops_at_the_oldest_line() {
    assert_eq!(HistoryInd::Line(2).up(3), HistoryInd::Line(2));
    assert_eq!(HistoryInd::Line(7).up(3), HistoryInd::Line(2));
    let mut ind = HistoryInd::Prompt;
    for _ in 0..10 {
        ind = ind.up(4);
    }
    assert_eq!(ind, HistoryInd::Line(3));
}

#[test]
fn up_in_an_empty_history_stays_at_the_prompt() {
    assert_eq!(HistoryInd::Prompt.up(0), HistoryInd::Prompt);
}

#[test]
fn up_is_defined_unless_a_shown_line_has_no_history() {
    assert!(HistoryInd::Prompt.has_up(0));
    assert!(HistoryInd::Line(5).has_up(1));
    assert!(!HistoryInd::Line(0).has_up(0));
    assert!(!HistoryInd::Line(usize::MAX).has_up(3));
}

#[test]
fn down_leads_back_to_the_prompt() {
    assert_eq!(HistoryInd::Line(2).down(), HistoryInd::Line(1));
    assert_eq!(HistoryInd::Line(0).down(), HistoryInd::Prompt);
    assert_eq!(HistoryInd::Prompt.down(), HistoryInd::Prompt);
}

#[test]
fn down_takes_back_up() {
    assert_eq!(HistoryInd::Prompt.up(2).down(), HistoryInd::Prompt);
    assert_eq!(HistoryInd::Line(0).up(2).down(), HistoryInd::Line(0));
}
