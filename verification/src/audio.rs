//! Ambient sound: a low drone while the ghost works and a chime when an app
//! goes live. The sound is played by a dedicated thread that listens on a
//! channel; the UI only sends it commands.

use vstd::prelude::*;
use std::sync::mpsc::Sender;

verus! {

/// A command for the audio thread.
#[derive(Clone, Copy, PartialEq, Eq, Debug, Structural)]
pub enum Cmd {
    /// Start the ambient drone (idempotent).
    Ambient,
    /// Stop the drone.
    Stop,
    /// Play the "ready" chime.
    Chime,
}

#[verifier::external_type_specification]
#[verifier::external_body]
#[verifier::reject_recursive_types(T)]
pub struct ExSender<T>(std::sync::mpsc::Sender<T>);

/// `std::sync::mpsc::Sender::send`: a command refused because the audio
/// thread is gone comes back unchanged. Whether it is refused depends on the
/// other thread and is not stated.
#[verifier::external_body]
fn send_cmd(tx: &Sender<Cmd>, c: Cmd) -> (r: Result<(), Cmd>)
    ensures
        r matches Err(v) ==> v == c,
{
    tx.send(c).map_err(|e| e.0)
}

/// The handle the UI keeps; without a channel (audio disabled) every
/// command is dropped.
#[derive(Clone)]
pub struct Audio {
    tx: Option<Sender<Cmd>>,
}

impl Audio {
    /// A handle on the audio thread's channel (`None`: audio disabled).
    pub fn from_channel(tx: Option<Sender<Cmd>>) -> (r: Self)
        ensures
            r.enabled() == tx is Some,
    {
        Audio { tx }
    }

    /// Whether commands go anywhere.
    pub closed spec fn enabled(&self) -> bool {
        self.tx is Some
    }

    /// Starts the ambient drone (idempotent).
    pub fn ambient(&self) {
        self.send(Cmd::Ambient);
    }

    /// Stops the ambient drone.
    pub fn stop(&self) {
        self.send(Cmd::Stop);
    }

    /// Plays the chime (the app went live).
    pub fn chime(&self) {
        self.send(Cmd::Chime);
    }

    /// Hands `c` to the audio thread; returns whether it was handed over
    /// (never, when audio is disabled).
    pub fn send(&self, c: Cmd) -> (r: bool)
        ensures
            !self.enabled() ==> !r,
    {
        match &self.tx {
            Some(tx) => send_cmd(tx, c).is_ok(),
            None => false,
        }
    }
}

} // verus!
