//! What is done when something happens on the stream that frames come on.
use crate::frame::{LatestFrame, VideoInfoRaw};
use crate::session::SECOND;
use vstd::prelude::*;

verus! {

/// The state of the stream.
#[derive(Debug, Clone, Copy, PartialEq, Eq, Structural)]
pub enum StreamState {
    Error,
    Unconnected,
    Connecting,
    Paused,
    Streaming,
}

/// What is remembered about the stream between one event and the next.
#[derive(Debug)]
pub struct UserData {
    /// The format that was agreed on last.
    pub video_info: VideoInfoRaw,
}

impl UserData {
    /// No format has been agreed on yet.
    pub fn new() -> (data: Self)
        ensures
            data.video_info == (VideoInfoRaw {
                format: crate::frame::VideoFormat::Other(0),
                width: 0,
                height: 0,
            }),
    {
        UserData { video_info: VideoInfoRaw::unknown() }
    }

    /// A parameter of the stream changed. Only the format matters: it is remembered, or, where it
    /// was taken away, the stream is to be disconnected. Says whether it is.
    pub fn param_changed(&mut self, is_format: bool, param: Option<VideoInfoRaw>) -> (disconnect:
        bool)
        ensures
            disconnect == (is_format && param is None),
            final(self).video_info == if is_format && param is Some {
                param->0
            } else {
                old(self).video_info
            },
    {
        if !is_format {
            return false;
        }
        match param {
            Some(info) => {
                self.video_info = info;
                false
            },
            None => true,
        }
    }

    /// The stream entered a state. Says whether the capture is over.
    pub fn state_changed(&self, to: StreamState) -> (quit: bool)
        ensures
            quit == (to == StreamState::Unconnected),
    {
        to == StreamState::Unconnected
    }

    /// A buffer is there to be looked at. Where it has data, this is the latest frame.
    pub fn process(&self, latest_frame: &mut LatestFrame, data_bytes: Option<&[u8]>, now: u128)
        ensures
            match data_bytes {
                Some(bytes) => {
                    &&& final(latest_frame).data@ == bytes@
                    &&& final(latest_frame).info == self.video_info
                    &&& final(latest_frame).ts == now
                },
                None => *final(latest_frame) == *old(latest_frame),
            },
    {
        if let Some(bytes) = data_bytes {
            latest_frame.store(bytes, self.video_info, now);
        }
    }
}

/// How long to sleep after a frame was tried, in nanoseconds.
pub const SHOT_INTERVAL: u128 = 5 * SECOND;

/// What to do next about the capture.
#[derive(Debug, Clone, Copy, PartialEq, Eq, Structural)]
pub enum ShotTurn {
    /// The capture is over.
    Stop,
    /// Save the latest frame, if there is one, and then sleep for so many nanoseconds.
    Shoot { then_park: u128 },
}

/// A frame is tried, again and again, until the capture is over.
pub fn shot_turn(quit: bool) -> (turn: ShotTurn)
    ensures
        turn == if quit {
            ShotTurn::Stop
        } else {
            ShotTurn::Shoot { then_park: (5 * SECOND) as u128 }
        },
{
    if quit {
        ShotTurn::Stop
    } else {
        ShotTurn::Shoot { then_park: SHOT_INTERVAL }
    }
}

} // verus!
