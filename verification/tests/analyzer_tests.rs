use ferria::analyzer::{
    AnalysisOutcome, AnalyzerTask, AudioAnalyzer, RecvOutcome, TaskAction,
};
use ferria::error::FerriaError;

#[test]
fn test_audio_analyzer_new() {
    assert!(AudioAnalyzer::new(1024, 44100).is_ok());
    assert!(AudioAnalyzer::new(2048, 48000).is_ok());
}

#[test]
fn test_audio_analyzer_new_invalid_fft_size() {
    assert!(AudioAnalyzer::new(1000, 44100).is_err());
    assert!(AudioAnalyzer::new(0, 44100).is_err());
}

#[test]
fn test_new_reports_invalid_configuration() {
    assert_eq!(
        AudioAnalyzer::new(0, 44100),
        Err(FerriaError::InvalidConfiguration { fft_size: 0 })
    );
    assert_eq!(
        AudioAnalyzer::new(6, 44100),
        Err(FerriaError::InvalidConfiguration { fft_size: 6 })
    );
    assert_eq!(
        AudioAnalyzer::new(1000, 48000),
        Err(FerriaError::InvalidConfiguration { fft_size: 1000 })
    );
}

#[test]
fn test_new_accepts_every_small_power_of_two() {
    let mut size: usize = 1;
    while size <= 65536 {
        let analyzer = AudioAnalyzer::new(size, 44100).unwrap();
        assert_eq!(analyzer.fft_size(), size);
        assert_eq!(analyzer.sample_rate(), 44100);
        size *= 2;
    }
}

#[test]
fn test_check_frame_size_accepts_exact_length() {
    let analyzer = AudioAnalyzer::new(1024, 44100).unwrap();
    assert_eq!(analyzer.check_frame_size(1024), Ok(()));
}

#[test]
fn test_check_frame_size_rejects_mismatch() {
    let analyzer = AudioAnalyzer::new(1024, 44100).unwrap();
    assert_eq!(
        analyzer.check_frame_size(1000),
        Err(FerriaError::InputSizeMismatch { given: 1000, expected: 1024 })
    );
    assert_eq!(
        analyzer.check_frame_size(0),
        Err(FerriaError::InputSizeMismatch { given: 0, expected: 1024 })
    );
    assert_eq!(
        analyzer.check_frame_size(1025),
        Err(FerriaError::InputSizeMismatch { given: 1025, expected: 1024 })
    );
}

#[test]
fn test_task_accumulates_a_frame_in_order() {
    let analyzer = AudioAnalyzer::new(4, 44100).unwrap();
    let mut task = AnalyzerTask::new(&analyzer);
    assert!(!task.is_full());

    assert_eq!(task.on_receive(RecvOutcome::Sample(10)), TaskAction::Receive);
    assert_eq!(task.on_receive(RecvOutcome::TimedOut), TaskAction::Receive);
    assert_eq!(task.on_receive(RecvOutcome::Sample(20)), TaskAction::Receive);
    assert_eq!(task.on_receive(RecvOutcome::Sample(30)), TaskAction::Receive);
    assert_eq!(task.on_receive(RecvOutcome::Sample(40)), TaskAction::Analyze);

    assert!(task.is_full());
    assert_eq!(task.frame().as_slice(), &[10, 20, 30, 40]);
}

#[test]
fn test_task_exits_when_input_closes() {
    let analyzer = AudioAnalyzer::new(4, 44100).unwrap();
    let mut task = AnalyzerTask::new(&analyzer);
    assert_eq!(task.on_receive(RecvOutcome::Sample(1)), TaskAction::Receive);
    // the partial frame is dropped, never flushed
    assert_eq!(task.on_receive(RecvOutcome::Closed), TaskAction::Exit);
    assert_eq!(task.frame().len(), 1);
}

#[test]
fn test_task_exits_when_output_receiver_is_gone() {
    let analyzer = AudioAnalyzer::new(2, 44100).unwrap();
    let mut task = AnalyzerTask::new(&analyzer);
    assert_eq!(task.on_receive(RecvOutcome::Sample(1)), TaskAction::Receive);
    assert_eq!(task.on_receive(RecvOutcome::Sample(2)), TaskAction::Analyze);
    assert_eq!(task.after_analysis(AnalysisOutcome::ReceiverGone), TaskAction::Exit);
}

#[test]
fn test_task_survives_a_failed_analysis() {
    let analyzer = AudioAnalyzer::new(2, 44100).unwrap();
    let mut task = AnalyzerTask::new(&analyzer);
    task.on_receive(RecvOutcome::Sample(1));
    assert_eq!(task.on_receive(RecvOutcome::Sample(2)), TaskAction::Analyze);
    // the frame is cleared and the task keeps going
    assert_eq!(task.after_analysis(AnalysisOutcome::AnalysisFailed), TaskAction::Receive);
    assert_eq!(task.frame().len(), 0);
    assert_eq!(task.after_analysis(AnalysisOutcome::Delivered), TaskAction::Receive);
    assert_eq!(task.frame().len(), 0);
}
