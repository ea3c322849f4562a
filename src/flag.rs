//! The advertising-enable flag: one boolean broadcast between the
//! activation controller and the connection supervisor.
//!
//! It is a single slot, not a queue: readers see the latest value, and a
//! reader that missed some writes sees only the last one.
use embassy_sync::blocking_mutex::raw::CriticalSectionRawMutex;
use embassy_sync::watch::Watch;
use vstd::prelude::*;

verus! {

/// Number of tasks that may wait on the flag.
pub const FLAG_RECEIVERS: usize = 2;

/// The flag, held in an embassy-sync watch.
#[verifier::external_body]
pub struct AdvertisingFlag {
    watch: Watch<CriticalSectionRawMutex, bool, FLAG_RECEIVERS>,
}

/// The value the flag holds; `None` before the first write.
pub uninterp spec fn flag_value(flag: AdvertisingFlag) -> Option<bool>;

/// The number of writes the flag has seen.
pub uninterp spec fn flag_writes(flag: AdvertisingFlag) -> u64;

impl AdvertisingFlag {
    /// A flag that has never been written.
    ///
    /// Relies on `Watch::new`: no value, message counter at zero.
    #[verifier::external_body]
    pub fn new() -> (r: Self)
        ensures
            flag_value(r) is None,
            flag_writes(r) == 0,
    {
        AdvertisingFlag { watch: Watch::new() }
    }

    /// Broadcasts `enabled`.
    ///
    /// Relies on `Watch::sender` and `Sender::send`: the value is replaced
    /// and the message counter goes up by one.
    #[verifier::external_body]
    pub fn send(&mut self, enabled: bool)
        requires
            flag_writes(*old(self)) < u64::MAX,
        ensures
            flag_value(*final(self)) == Some(enabled),
            flag_writes(*final(self)) == flag_writes(*old(self)) + 1,
    {
        self.watch.sender().send(enabled)
    }

    /// The latest value.
    ///
    /// Relies on `Watch::try_get`: the value held, if any.
    #[verifier::external_body]
    pub fn try_get(&self) -> (r: Option<bool>)
        ensures
            r == flag_value(*self),
    {
        self.watch.try_get()
    }

    /// The number of writes so far.
    ///
    /// Relies on `Watch::get_msg_id`: the message counter.
    #[verifier::external_body]
    pub fn message_id(&self) -> (r: u64)
        ensures
            r == flag_writes(*self),
    {
        self.watch.get_msg_id()
    }
}

} // verus!
