//! A string pool whose values come back through a channel instead of a
//! shared collection: handed-out strings carry a sender, and the pool drains
//! its receiver to reclaim them. Every reclaimed string is cleared before it
//! is stored, so everything the pool hands out starts empty.

use vstd::prelude::*;
use vstd::string::StringExecFns;
use std::sync::mpsc::{Receiver, Sender};

verus! {

#[verifier::external_type_specification]
#[verifier::external_body]
#[verifier::reject_recursive_types(T)]
pub struct ExSender<T>(Sender<T>);

#[verifier::external_type_specification]
#[verifier::external_body]
#[verifier::reject_recursive_types(T)]
pub struct ExReceiver<T>(Receiver<T>);

/// Relies on `std::sync::mpsc::channel`: it creates a connected
/// sender/receiver pair. Which values later arrive at the receiver depends
/// on what is sent at run time, so nothing is stated here; the pool clears
/// every received string before storing it.
#[verifier::external_body]
fn make_channel() -> (Sender<String>, Receiver<String>) {
    std::sync::mpsc::channel()
}

/// Relies on `std::sync::mpsc::Sender::send`: it queues the value for the
/// receiver. The error case (the receiver is gone) means the pool no longer
/// exists, and the string is simply lost, so the result is ignored.
#[verifier::external_body]
fn send_string(tx: &Sender<String>, s: String) {
    let _ = tx.send(s);
}

/// Relies on `std::sync::mpsc::Receiver::try_iter`: it yields exactly the
/// values waiting in the channel, without blocking. Which strings are
/// waiting depends on what was sent at run time, so nothing is stated of
/// the result; the pool clears every drained string before storing it.
#[verifier::external_body]
fn drain_strings(rx: &Receiver<String>) -> Vec<String> {
    rx.try_iter().collect()
}

/// A string handed out by a [`StringPool`], carrying the sender through
/// which it travels back to the pool. `recycle` consumes the handle and
/// sends the string home; the pool clears it on arrival.
pub struct RecycledString<'pool> {
    pub string: Option<String>,
    pool_sender: &'pool Sender<String>,
}

impl<'pool> RecycledString<'pool> {
    /// The characters currently held: those of the wrapped string, or none
    /// while the string is absent.
    pub closed spec fn content(&self) -> Seq<char> {
        match self.string {
            Some(s) => s@,
            None => Seq::empty(),
        }
    }

    /// Whether the wrapped string is present. It is present from
    /// construction on; only `recycle` removes it.
    pub closed spec fn has_string(&self) -> bool {
        self.string is Some
    }

    pub fn new(pool_sender: &'pool Sender<String>) -> (r: RecycledString<'pool>)
        ensures
            r.has_string(),
            r.content() == Seq::<char>::empty(),
    {
        RecycledString { string: Some(String::new()), pool_sender }
    }

    pub fn new_from(pool_sender: &'pool Sender<String>, source_string: String) -> (r:
        RecycledString<'pool>)
        ensures
            r.has_string(),
            r.content() == source_string@,
    {
        RecycledString { string: Some(source_string), pool_sender }
    }

    /// Empties the wrapped string, keeping its allocation.
    pub fn clear(&mut self)
        ensures
            final(self).content() == Seq::<char>::empty(),
            final(self).has_string() == old(self).has_string(),
    {
        match &mut self.string {
            Some(s) => s.clear(),
            None => (),
        }
    }

    /// The number of characters currently held.
    pub fn len(&self) -> (r: usize)
        ensures
            r == self.content().len(),
    {
        match &self.string {
            Some(s) => s.as_str().unicode_len(),
            None => 0,
        }
    }

    /// Appends `source` to the wrapped string; without a string this does
    /// nothing.
    pub fn push_str(&mut self, source: &str)
        ensures
            old(self).has_string() ==> final(self).content() == old(self).content() + source@,
            !old(self).has_string() ==> final(self).content() == old(self).content(),
            final(self).has_string() == old(self).has_string(),
    {
        match &mut self.string {
            Some(s) => s.append(source),
            None => (),
        }
    }

    /// Sends the wrapped string back to the pool that issued this handle
    /// and consumes the handle.
    pub fn recycle(self) {
        let RecycledString { string, pool_sender } = self;
        match string {
            Some(s) => send_string(pool_sender, s),
            None => (),
        }
    }
}

/// A pool of strings drained back through a channel. Its invariant: every
/// stored spare string is empty, so anything handed out only ever holds what
/// the caller put there.
pub struct StringPool {
    strings: Vec<String>,
    reclaimed_strings: Receiver<String>,
    pub sender: Sender<String>,
}

impl StringPool {
    /// The spare strings currently held.
    pub closed spec fn spares(&self) -> Seq<String> {
        self.strings@
    }

    /// The sender half of the pool's reclaim channel.
    pub closed spec fn sender_spec(&self) -> Sender<String> {
        self.sender
    }

    /// The pool's invariant: every spare string is empty.
    pub open spec fn wf(&self) -> bool {
        forall|i: int| 0 <= i < self.spares().len() ==> self.spares()[i]@.len() == 0
    }

    /// The sender through which handed-out strings come back.
    pub fn sender<'a>(&'a self) -> (r: &'a Sender<String>)
        ensures
            *r == self.sender_spec(),
    {
        &self.sender
    }

    /// Creates a pool holding `size` empty strings.
    pub fn with_size(size: u32) -> (r: StringPool)
        ensures
            r.wf(),
            r.spares().len() == size,
    {
        let (sender, receiver) = make_channel();
        let mut strings: Vec<String> = Vec::new();
        let mut i: u32 = 0;
        while i < size
            invariant
                i <= size,
                strings@.len() == i,
                forall|j: int| 0 <= j < strings@.len() ==> strings@[j]@.len() == 0,
            decreases size - i,
        {
            strings.push(String::new());
            i = i + 1;
        }
        StringPool { strings, reclaimed_strings: receiver, sender }
    }

    /// Stores every string that has come back: each one is cleared and
    /// appended, so the spare count grows by exactly the number of
    /// reclaimed strings and the spares already held stay where they are.
    fn store_reclaimed(&mut self, reclaimed: Vec<String>)
        requires
            old(self).wf(),
        ensures
            final(self).wf(),
            final(self).spares().len() == old(self).spares().len() + reclaimed@.len(),
            forall|i: int|
                0 <= i < old(self).spares().len() ==> final(self).spares()[i] == old(
                    self,
                ).spares()[i],
            final(self).sender_spec() == old(self).sender_spec(),
    {
        let mut reclaimed = reclaimed;
        let ghost total = reclaimed@.len();
        while reclaimed.len() > 0
            invariant
                self.wf(),
                old(self).spares().len() <= self.spares().len(),
                self.spares().len() + reclaimed@.len() == old(self).spares().len() + total,
                forall|i: int|
                    0 <= i < old(self).spares().len() ==> self.spares()[i] == old(
                        self,
                    ).spares()[i],
                self.sender_spec() == old(self).sender_spec(),
            decreases reclaimed@.len(),
        {
            let mut string = reclaimed.pop().unwrap();
            string.clear();
            self.strings.push(string);
        }
    }

    /// Drains the receiver and stores what came back. How many strings are
    /// waiting depends on what was sent at run time, so only the
    /// every-outcome projection can stand here; `store_reclaimed` carries
    /// the exact count.
    fn reclaim_strings(&mut self)
        requires
            old(self).wf(),
        ensures
            final(self).wf(),
            final(self).spares().len() >= old(self).spares().len(),
            forall|i: int|
                0 <= i < old(self).spares().len() ==> final(self).spares()[i] == old(
                    self,
                ).spares()[i],
            final(self).sender_spec() == old(self).sender_spec(),
    {
        let reclaimed = drain_strings(&self.reclaimed_strings);
        self.store_reclaimed(reclaimed);
    }

    /// The checkout step after reclaiming: pops the most recent spare
    /// (empty by the pool's invariant) and fills it with `source`, or makes
    /// a new string from `source` when no spare is left. Exactly one spare
    /// is consumed when any is present.
    fn fill_from_spare(&mut self, source: &str) -> (r: String)
        requires
            old(self).wf(),
        ensures
            final(self).wf(),
            r@ == source@,
            old(self).spares().len() > 0 ==> final(self).spares() == old(
                self,
            ).spares().drop_last(),
            old(self).spares().len() == 0 ==> final(self).spares() == old(self).spares(),
            final(self).sender_spec() == old(self).sender_spec(),
    {
        match self.strings.pop() {
            Some(s) => {
                let mut s = s;
                s.append(source);
                proof {
                    assert(s@ =~= source@);
                }
                s
            },
            None => source.to_owned(),
        }
    }

    /// Hands out an empty string, reusing a spare when one is available.
    pub fn new(&mut self) -> (r: String)
        requires
            old(self).wf(),
        ensures
            final(self).wf(),
            r@ == Seq::<char>::empty(),
            final(self).sender_spec() == old(self).sender_spec(),
            old(self).spares().len() <= final(self).spares().len() + 1,
    {
        let r = self.new_from("");
        proof {
            reveal_strlit("");
            assert(r@ =~= Seq::<char>::empty());
        }
        r
    }

    /// Hands out a string holding exactly the characters of `source`:
    /// first every string that has come back through the channel is
    /// reclaimed, then a spare (empty by the pool's invariant) is filled
    /// with `source`, or a new string is made from `source` when no spare
    /// is left.
    pub fn new_from(&mut self, source: &str) -> (r: String)
        requires
            old(self).wf(),
        ensures
            final(self).wf(),
            r@ == source@,
            final(self).sender_spec() == old(self).sender_spec(),
            old(self).spares().len() <= final(self).spares().len() + 1,
    {
        self.reclaim_strings();
        self.fill_from_spare(source)
    }

    /// The number of spare strings currently held.
    pub fn size(&self) -> (r: usize)
        ensures
            r == self.spares().len(),
    {
        self.strings.len()
    }
}

} // verus!
