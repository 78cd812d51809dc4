//! A backend for trying out the engine: it does no work, counts what is
//! asked of it, and answers attempts from a script.

use vstd::prelude::*;
use crate::api::VolumeMount;
use crate::provider::FatalError;
use crate::provider::Outcome;

verus! {

/// What an answer to an attempt says: an outcome, or the text of a fatal
/// error.
pub open spec fn reply_view(reply: Result<Outcome, FatalError>) -> Result<Outcome, Seq<char>> {
    match reply {
        Ok(outcome) => Ok(outcome),
        Err(error) => Err(error.message@),
    }
}

/// The views of the answers of a script, in order.
pub open spec fn script_view(replies: Seq<Result<Outcome, FatalError>>) -> Seq<Result<Outcome, Seq<char>>> {
    Seq::new(replies.len(), |i: int| reply_view(replies[i]))
}

/// The count `count` after one more call. A count that has reached the
/// largest number stays there.
pub open spec fn counted(count: u64) -> u64 {
    if count < u64::MAX {
        (count + 1) as u64
    } else {
        count
    }
}

/// A scripted backend.
///
/// Attempts to acquire an image or to mount a volume are answered from the
/// script, one answer per attempt, in order; when the script has run out,
/// every attempt succeeds. Cooldowns take no time and always succeed. Every
/// call is counted.
#[derive(Debug)]
pub struct ProviderTest {
    replies: Vec<Result<Outcome, FatalError>>,
    image_pulls: u64,
    volume_mounts: u64,
    image_pull_backoffs: u64,
    volume_mount_backoffs: u64,
}

/// What a [`ProviderTest`] holds.
pub struct ProviderView {
    /// The answers still to be given, the next one first.
    pub replies: Seq<Result<Outcome, Seq<char>>>,
    /// How often an image was asked for.
    pub image_pulls: u64,
    /// How often a volume mount was asked for.
    pub volume_mounts: u64,
    /// How often image acquisition cooled down.
    pub image_pull_backoffs: u64,
    /// How often volume mounting cooled down.
    pub volume_mount_backoffs: u64,
}

impl ProviderView {
    /// The answer to the next attempt.
    pub open spec fn next_reply(self) -> Result<Outcome, Seq<char>> {
        if self.replies.len() > 0 {
            self.replies[0]
        } else {
            Ok(Outcome::Success)
        }
    }

    /// The script after the next attempt.
    pub open spec fn rest(self) -> Seq<Result<Outcome, Seq<char>>> {
        if self.replies.len() > 0 {
            self.replies.subrange(1, self.replies.len() as int)
        } else {
            self.replies
        }
    }
}

impl View for ProviderTest {
    type V = ProviderView;

    closed spec fn view(&self) -> ProviderView {
        ProviderView {
            replies: script_view(self.replies@),
            image_pulls: self.image_pulls,
            volume_mounts: self.volume_mounts,
            image_pull_backoffs: self.image_pull_backoffs,
            volume_mount_backoffs: self.volume_mount_backoffs,
        }
    }
}

impl ProviderTest {
    /// A backend that answers from `replies` and has not been called yet.
    pub fn new(replies: Vec<Result<Outcome, FatalError>>) -> (provider: ProviderTest)
        ensures
            provider@ == (ProviderView {
                replies: script_view(replies@),
                image_pulls: 0,
                volume_mounts: 0,
                image_pull_backoffs: 0,
                volume_mount_backoffs: 0,
            }),
    {
        ProviderTest {
            replies,
            image_pulls: 0,
            volume_mounts: 0,
            image_pull_backoffs: 0,
            volume_mount_backoffs: 0,
        }
    }

    /// Takes the next answer off the script.
    fn reply(&mut self) -> (reply: Result<Outcome, FatalError>)
        ensures
            reply_view(reply) == old(self)@.next_reply(),
            final(self)@ == (ProviderView { replies: old(self)@.rest(), ..old(self)@ }),
    {
        if self.replies.len() > 0 {
            let reply = self.replies.remove(0);
            proof {
                assert(script_view(self.replies@) =~= old(self)@.rest());
            }
            reply
        } else {
            Ok(Outcome::Success)
        }
    }

    /// Counts one more call.
    fn count(count: u64) -> (next: u64)
        ensures
            next == counted(count),
    {
        if count < u64::MAX {
            count + 1
        } else {
            count
        }
    }

    /// Answers an attempt to acquire `image` with the next answer of the
    /// script, and counts the attempt.
    pub fn image_pull(&mut self, image: &str) -> (reply: Result<Outcome, FatalError>)
        ensures
            reply_view(reply) == old(self)@.next_reply(),
            final(self)@ == (ProviderView {
                replies: old(self)@.rest(),
                image_pulls: counted(old(self)@.image_pulls),
                ..old(self)@
            }),
    {
        self.image_pulls = Self::count(self.image_pulls);
        self.reply()
    }

    /// Answers an attempt to mount `volume_mount` with the next answer of
    /// the script, and counts the attempt.
    pub fn volume_mount(&mut self, volume_mount: &VolumeMount) -> (reply: Result<Outcome, FatalError>)
        ensures
            reply_view(reply) == old(self)@.next_reply(),
            final(self)@ == (ProviderView {
                replies: old(self)@.rest(),
                volume_mounts: counted(old(self)@.volume_mounts),
                ..old(self)@
            }),
    {
        self.volume_mounts = Self::count(self.volume_mounts);
        self.reply()
    }

    /// Cools image acquisition down: counts the call and succeeds.
    pub fn image_pull_backoff(&mut self) -> (reply: Result<(), FatalError>)
        ensures
            reply is Ok,
            final(self)@ == (ProviderView {
                image_pull_backoffs: counted(old(self)@.image_pull_backoffs),
                ..old(self)@
            }),
    {
        self.image_pull_backoffs = Self::count(self.image_pull_backoffs);
        Ok(())
    }

    /// Cools volume mounting down: counts the call and succeeds.
    pub fn volume_mount_backoff(&mut self) -> (reply: Result<(), FatalError>)
        ensures
            reply is Ok,
            final(self)@ == (ProviderView {
                volume_mount_backoffs: counted(old(self)@.volume_mount_backoffs),
                ..old(self)@
            }),
    {
        self.volume_mount_backoffs = Self::count(self.volume_mount_backoffs);
        Ok(())
    }

    /// How often an image was asked for.
    pub fn image_pulls(&self) -> (count: u64)
        ensures
            count == self@.image_pulls,
    {
        self.image_pulls
    }

    /// How often a volume mount was asked for.
    pub fn volume_mounts(&self) -> (count: u64)
        ensures
            count == self@.volume_mounts,
    {
        self.volume_mounts
    }

    /// How often image acquisition cooled down.
    pub fn image_pull_backoffs(&self) -> (count: u64)
        ensures
            count == self@.image_pull_backoffs,
    {
        self.image_pull_backoffs
    }

    /// How often volume mounting cooled down.
    pub fn volume_mount_backoffs(&self) -> (count: u64)
        ensures
            count == self@.volume_mount_backoffs,
    {
        self.volume_mount_backoffs
    }
}

} // verus!
