use vstd::prelude::*;

use crate::loader::AudioTrackMetaData;

verus! {

/// The explicit playback state machine of the controller.
#[derive(Debug, Clone, Copy, PartialEq, Eq, Structural)]
pub enum PlaybackStatus {
    Stopped,
    Playing,
    Paused,
}

/// The device-side effect that one controller transition asks for. The
/// controller owns the state machine; its caller owns the actual output sink
/// and performs the directive on it before handling the next event.
#[derive(Debug, Clone, Copy, PartialEq, Eq, Structural)]
pub enum SinkDirective {
    /// Leave the output sink alone.
    KeepOutput,
    /// Halt playback, clear the queue, install the new source and start it.
    RestartOutput,
    /// Pause the output sink.
    PauseOutput,
    /// Resume the paused output sink.
    ResumeOutput,
    /// Halt the output sink and clear its queue.
    HaltOutput,
    /// Raise the output gain one step.
    RaiseVolume,
    /// Lower the output gain one step.
    LowerVolume,
}

/// The playback controller's state: status, current track path and metadata.
///
/// The output sink, the mutual exclusion around this state and the device
/// acquisition live with the caller: every status or metadata transition goes
/// through the methods here, each of which returns the `SinkDirective` the
/// caller must perform on the device. Readers get independent point-in-time
/// copies, never shared references into the state.
pub struct AudioPlayer {
    status: PlaybackStatus,
    current_file_path: Option<String>,
    current_meta_data: Option<AudioTrackMetaData>,
}

impl AudioPlayer {
    pub closed spec fn spec_status(&self) -> PlaybackStatus {
        self.status
    }

    pub closed spec fn spec_file_path(&self) -> Option<String> {
        self.current_file_path
    }

    pub closed spec fn spec_metadata(&self) -> Option<AudioTrackMetaData> {
        self.current_meta_data
    }

    /// A fresh controller: stopped, with no track installed. When acquiring
    /// the output device fails, the caller reports
    /// `FerriaError::DeviceError` and never constructs a controller.
    pub fn new() -> (r: AudioPlayer)
        ensures
            r.spec_status() == PlaybackStatus::Stopped,
            r.spec_file_path() is None,
            r.spec_metadata() is None,
    {
        AudioPlayer { status: PlaybackStatus::Stopped, current_file_path: None, current_meta_data: None }
    }

    /// Starts a new track from any state: the stored path and metadata are
    /// replaced by the new track's and the status becomes `Playing`; the sink
    /// is restarted with the new source.
    pub fn play(&mut self, file_path: String, metadata: AudioTrackMetaData) -> (d: SinkDirective)
        ensures
            final(self).spec_status() == PlaybackStatus::Playing,
            final(self).spec_file_path() == Some(file_path),
            final(self).spec_metadata() == Some(metadata),
            d == SinkDirective::RestartOutput,
    {
        self.status = PlaybackStatus::Playing;
        self.current_file_path = Some(file_path);
        self.current_meta_data = Some(metadata);
        SinkDirective::RestartOutput
    }

    /// `Playing` becomes `Paused` and the sink is paused; from any other
    /// state this is a no-op.
    pub fn pause(&mut self) -> (d: SinkDirective)
        ensures
            old(self).spec_status() == PlaybackStatus::Playing ==> final(self).spec_status()
                == PlaybackStatus::Paused && d == SinkDirective::PauseOutput,
            old(self).spec_status() != PlaybackStatus::Playing ==> *final(self) == *old(self) && d
                == SinkDirective::KeepOutput,
            final(self).spec_file_path() == old(self).spec_file_path(),
            final(self).spec_metadata() == old(self).spec_metadata(),
    {
        if self.status == PlaybackStatus::Playing {
            self.status = PlaybackStatus::Paused;
            SinkDirective::PauseOutput
        } else {
            SinkDirective::KeepOutput
        }
    }

    /// `Paused` becomes `Playing` and the sink is resumed; from any other
    /// state this is a no-op.
    pub fn resume(&mut self) -> (d: SinkDirective)
        ensures
            old(self).spec_status() == PlaybackStatus::Paused ==> final(self).spec_status()
                == PlaybackStatus::Playing && d == SinkDirective::ResumeOutput,
            old(self).spec_status() != PlaybackStatus::Paused ==> *final(self) == *old(self) && d
                == SinkDirective::KeepOutput,
            final(self).spec_file_path() == old(self).spec_file_path(),
            final(self).spec_metadata() == old(self).spec_metadata(),
    {
        if self.status == PlaybackStatus::Paused {
            self.status = PlaybackStatus::Playing;
            SinkDirective::ResumeOutput
        } else {
            SinkDirective::KeepOutput
        }
    }

    /// Stops from any state: the sink is halted and cleared, and the stored
    /// path and metadata are dropped.
    pub fn stop(&mut self) -> (d: SinkDirective)
        ensures
            final(self).spec_status() == PlaybackStatus::Stopped,
            final(self).spec_file_path() is None,
            final(self).spec_metadata() is None,
            d == SinkDirective::HaltOutput,
    {
        self.status = PlaybackStatus::Stopped;
        self.current_file_path = None;
        self.current_meta_data = None;
        SinkDirective::HaltOutput
    }

    /// Asks for one step more gain; playback state, path and metadata are
    /// untouched.
    pub fn volume_up(&mut self) -> (d: SinkDirective)
        ensures
            *final(self) == *old(self),
            d == SinkDirective::RaiseVolume,
    {
        SinkDirective::RaiseVolume
    }

    /// Asks for one step less gain; playback state, path and metadata are
    /// untouched.
    pub fn volume_down(&mut self) -> (d: SinkDirective)
        ensures
            *final(self) == *old(self),
            d == SinkDirective::LowerVolume,
    {
        SinkDirective::LowerVolume
    }

    /// A point-in-time snapshot of the status.
    pub fn get_status(&self) -> (r: PlaybackStatus)
        ensures
            r == self.spec_status(),
    {
        self.status
    }

    /// A point-in-time copy of the current track's path.
    pub fn get_current_file_path(&self) -> (r: Option<String>)
        ensures
            r == self.spec_file_path(),
    {
        match &self.current_file_path {
            Some(p) => Some(p.clone()),
            None => None,
        }
    }

    /// A point-in-time copy of the current track's metadata.
    pub fn get_current_metadata(&self) -> (r: Option<AudioTrackMetaData>)
        ensures
            r == self.spec_metadata(),
    {
        match &self.current_meta_data {
            Some(m) => Some(m.duplicate()),
            None => None,
        }
    }
}

} // verus!
