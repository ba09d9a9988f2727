//! The progress-notification bridge: events emitted by the external
//! patch engine are delivered synchronously, one observer callback per
//! event, in emission order, and a failure raised by the observer is
//! caught at the bridge and reported back — it never unwinds into or
//! aborts the delivery of later events.

use vstd::prelude::*;

use crate::errors::ObserverError;

verus! {

/// One progress event of a patch operation, consumed synchronously by
/// the observer and not retained.
#[derive(PartialEq, Eq, Debug)]
pub enum ProgressEvent {
    /// The total number of bytes the operation will write is known.
    TotalBytesKnown(usize),
    /// A named file of the disc image is being written, with its size.
    WritingFile(Vec<u8>, usize),
    /// The disc image header is being written.
    WritingHeader,
    /// Written data is being flushed to disk.
    FlushingToDisk,
}

/// An externally supplied progress observer: exactly four operations,
/// each independently callable any number of times, in any order the
/// engine chooses. An operation reports its own failure through its
/// result; the bridge isolates that failure.
pub trait ProgressObserver {
    /// The operation's total byte count is known.
    fn notify_total_bytes(&mut self, total: usize) -> Result<(), ObserverError>;

    /// A file with the given raw name and size is being written.
    fn notify_writing_file(&mut self, name: &Vec<u8>, size: usize) -> Result<(), ObserverError>;

    /// The disc image header is being written.
    fn notify_writing_header(&mut self) -> Result<(), ObserverError>;

    /// Written data is being flushed to disk.
    fn notify_flushing_to_disk(&mut self) -> Result<(), ObserverError>;
}

/// Delivers one event: invokes exactly the one observer callback that
/// corresponds to the event, synchronously. A failure raised by the
/// callback is returned to the caller of the bridge, never propagated:
/// whatever the observer does, this function returns normally.
pub fn deliver<O: ProgressObserver>(observer: &mut O, event: &ProgressEvent) -> (failure: Option<
    ObserverError,
>) {
    let result = match event {
        ProgressEvent::TotalBytesKnown(total) => observer.notify_total_bytes(*total),
        ProgressEvent::WritingFile(name, size) => observer.notify_writing_file(name, *size),
        ProgressEvent::WritingHeader => observer.notify_writing_header(),
        ProgressEvent::FlushingToDisk => observer.notify_flushing_to_disk(),
    };
    match result {
        Ok(_) => None,
        Err(e) => Some(e),
    }
}

/// Delivers a sequence of events in emission order, one callback per
/// event. The returned record holds, for each event in order, the
/// failure its callback raised, if any: every event is delivered, so an
/// observer that fails on one event never prevents the delivery of the
/// events after it.
pub fn deliver_all<O: ProgressObserver>(observer: &mut O, events: &Vec<ProgressEvent>) -> (record:
    Vec<Option<ObserverError>>)
    ensures
        record@.len() == events@.len(),
{
    let mut record: Vec<Option<ObserverError>> = Vec::new();
    let mut i: usize = 0;
    while i < events.len()
        invariant
            i <= events@.len(),
            record@.len() == i as int,
        decreases events@.len() - i,
    {
        let failure = deliver(observer, &events[i]);
        record.push(failure);
        i = i + 1;
    }
    record
}

} // verus!
