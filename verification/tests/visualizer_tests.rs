use ferria::visualizer::{bar_rows, display_spans, SpectrumVisualizer};

#[test]
fn test_display_spans_even_fold() {
    // eight raw bins on four columns: two bins per column
    let spans = display_spans(8, 4);
    assert_eq!(spans, vec![(0, 2), (2, 4), (4, 6), (6, 8)]);
}

#[test]
fn test_display_spans_uneven_fold() {
    // five raw bins on two columns: the tail run is longer
    let spans = display_spans(5, 2);
    assert_eq!(spans, vec![(0, 2), (2, 5)]);
}

#[test]
fn test_display_spans_identity_when_bins_fit() {
    // three raw bins on five columns: one bin per span, spectrum unchanged
    let spans = display_spans(3, 5);
    assert_eq!(spans, vec![(0, 1), (1, 2), (2, 3)]);
}

#[test]
fn test_display_spans_empty_input() {
    assert!(display_spans(0, 10).is_empty());
}

#[test]
fn test_display_spans_zero_width() {
    assert!(display_spans(3, 0).is_empty());
}

#[test]
fn test_display_spans_cover_all_bins() {
    for raw_len in 1usize..40 {
        for width in 1usize..40 {
            let spans = display_spans(raw_len, width);
            assert_eq!(spans[0].0, 0);
            assert_eq!(spans[spans.len() - 1].1, raw_len);
            for i in 0..spans.len() {
                assert!(spans[i].0 < spans[i].1);
                if i + 1 < spans.len() {
                    assert_eq!(spans[i].1, spans[i + 1].0);
                }
            }
        }
    }
}

#[test]
fn test_bar_rows_forces_quiet_signal_visible() {
    assert_eq!(bar_rows(0, true), 1);
    assert_eq!(bar_rows(0, false), 0);
    assert_eq!(bar_rows(7, true), 7);
    assert_eq!(bar_rows(7, false), 7);
}

#[test]
fn test_history_starts_empty() {
    let visualizer = SpectrumVisualizer::new();
    assert!(visualizer.prev_heights().is_empty());
}

#[test]
fn test_history_resize_keeps_old_columns_and_zeroes_new_ones() {
    let mut visualizer = SpectrumVisualizer::new();
    visualizer.sync_history_width(4);
    assert_eq!(visualizer.prev_heights().as_slice(), &[0, 0, 0, 0]);

    visualizer.commit_heights(vec![5, 6, 7, 8]);
    assert_eq!(visualizer.prev_heights().as_slice(), &[5, 6, 7, 8]);

    // narrower display: the surviving columns keep their heights
    visualizer.sync_history_width(2);
    assert_eq!(visualizer.prev_heights().as_slice(), &[5, 6]);

    // wider display: new columns start without an afterimage
    visualizer.sync_history_width(5);
    assert_eq!(visualizer.prev_heights().as_slice(), &[5, 6, 0, 0, 0]);
}
