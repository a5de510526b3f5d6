//! The command dispatcher core: the state a transport owns — the id
//! counter and the pending table — and the one step that turns a command
//! into a wire frame.
//!
//! The step is pure state: the stealth check, the id allocation, the
//! register-before-send ordering, the JSON text, and the frame bytes all
//! happen here, so every caller that performs the returned action gets the
//! guarantees below. The surrounding I/O (the socket, the locks, the
//! waiter channels) lives outside and only carries the values produced
//! here.

use vstd::prelude::*;

use crate::frame::{encode_frame, spec_client_frame, OPCODE_TEXT};
use crate::pending::PendingTable;
use crate::policy::{is_blocked, is_risky, spec_blocked, spec_risky};
use crate::wire::{build_command_json, spec_command_json};

verus! {

/// What the send path must do next for one command.
pub enum SendPrep<T> {
    /// The stealth policy blocked the method: nothing was allocated and
    /// nothing may be written; the caller synthesizes a default result
    /// and hands it straight back to the waiter.
    Blocked { waiter: T },
    /// Write exactly `frame`, then await the waiter registered under
    /// `id`. `risky` asks the caller to log a warning first.
    Send { id: u64, frame: Vec<u8>, risky: bool },
}

/// The per-transport dispatch state: the next command id and the table of
/// outstanding requests.
pub struct DispatchCore<T> {
    /// The id the next command will take. Ids start at 1, increase by
    /// one per sent command, and are never reused.
    pub next_id: u64,
    /// The outstanding requests.
    pub pending: PendingTable<T>,
}

impl<T> DispatchCore<T> {
    /// Every outstanding id was allocated before `next_id`, so a fresh
    /// id never collides with an outstanding one.
    pub open spec fn wf(&self) -> bool {
        forall|id: u64| self.pending@.contains_key(id) ==> id < self.next_id
    }

    /// A dispatcher with no outstanding requests, ids starting at 1.
    pub fn new() -> (c: Self)
        ensures
            c.next_id == 1,
            c.pending@ == Map::<u64, T>::empty(),
            c.wf(),
    {
        DispatchCore { next_id: 1, pending: PendingTable::new() }
    }

    /// One dispatch step. A blocked method changes nothing and produces
    /// no frame. Any other method takes the next id, registers the
    /// waiter under it (before any write can happen), and yields the one
    /// frame to write: the command JSON as a masked text frame.
    pub fn prepare_send(
        &mut self,
        method: &str,
        params_json: &str,
        session_id: Option<&str>,
        waiter: T,
        mask: &[u8; 4],
    ) -> (r: SendPrep<T>)
        requires
            old(self).wf(),
            old(self).next_id < u64::MAX,
        ensures
            final(self).wf(),
            spec_blocked(method@) ==> {
                &&& r matches SendPrep::Blocked { waiter: w } && w == waiter
                &&& final(self).next_id == old(self).next_id
                &&& final(self).pending@ == old(self).pending@
            },
            !spec_blocked(method@) ==> {
                &&& r matches SendPrep::Send { id, frame, risky } && {
                    &&& id == old(self).next_id
                    &&& risky == spec_risky(method@)
                    &&& frame@ == spec_client_frame(
                        OPCODE_TEXT,
                        vstd::utf8::encode_utf8(
                            spec_command_json(
                                id,
                                method@,
                                params_json@,
                                match session_id {
                                    Option::None => Option::None,
                                    Option::Some(s) => Option::Some(s@),
                                },
                            ),
                        ),
                        mask@,
                    )
                    &&& final(self).pending@ == old(self).pending@.insert(id, waiter)
                }
                &&& final(self).next_id == old(self).next_id + 1
            },
    {
        if is_blocked(method) {
            return SendPrep::Blocked { waiter };
        }
        let risky = is_risky(method);
        let id = self.next_id;
        self.next_id = self.next_id + 1;
        self.pending.register(id, waiter);
        let json = build_command_json(id, method, params_json, session_id);
        let frame = encode_frame(OPCODE_TEXT, json.as_str().as_bytes(), mask);
        SendPrep::Send { id, frame, risky }
    }

    /// One dispatch step with a fresh random mask key, as the send path
    /// uses it: the contract of `prepare_send`, for some four-byte key.
    pub fn begin_send(
        &mut self,
        method: &str,
        params_json: &str,
        session_id: Option<&str>,
        waiter: T,
    ) -> (r: SendPrep<T>)
        requires
            old(self).wf(),
            old(self).next_id < u64::MAX,
        ensures
            final(self).wf(),
            spec_blocked(method@) ==> {
                &&& r matches SendPrep::Blocked { waiter: w } && w == waiter
                &&& final(self).next_id == old(self).next_id
                &&& final(self).pending@ == old(self).pending@
            },
            !spec_blocked(method@) ==> {
                &&& r matches SendPrep::Send { id, frame, risky } && {
                    &&& id == old(self).next_id
                    &&& risky == spec_risky(method@)
                    &&& exists|mask: Seq<u8>|
                        mask.len() == 4 && frame@ == spec_client_frame(
                            OPCODE_TEXT,
                            vstd::utf8::encode_utf8(
                                spec_command_json(
                                    id,
                                    method@,
                                    params_json@,
                                    match session_id {
                                        Option::None => Option::None,
                                        Option::Some(s) => Option::Some(s@),
                                    },
                                ),
                            ),
                            mask,
                        )
                    &&& final(self).pending@ == old(self).pending@.insert(id, waiter)
                }
                &&& final(self).next_id == old(self).next_id + 1
            },
    {
        let mask = crate::rng::random_mask();
        let r = self.prepare_send(method, params_json, session_id, waiter, &mask);
        proof {
            if !spec_blocked(method@) {
                assert(mask@.len() == 4);
            }
        }
        r
    }

    /// Tear-down on a fatal transport error: every outstanding waiter
    /// comes back (in no particular order) and the table is left empty,
    /// so the caller can drop them and each one observes a closed
    /// channel. The id counter is untouched: ids are never reused.
    pub fn drain(&mut self) -> (r: Vec<T>)
        requires
            old(self).wf(),
        ensures
            final(self).wf(),
            final(self).next_id == old(self).next_id,
            final(self).pending@ == Map::<u64, T>::empty(),
            r@.len() == old(self).pending@.len(),
    {
        self.pending.drain()
    }

    /// The reader side resolves a response id: the waiter comes back
    /// exactly when the id was outstanding, and its entry is removed.
    /// `None` means the response is dropped silently — the expected
    /// outcome of a duplicate or a cancelled request, never an error.
    pub fn resolve(&mut self, id: u64) -> (r: Option<T>)
        requires
            old(self).wf(),
        ensures
            final(self).wf(),
            final(self).next_id == old(self).next_id,
            final(self).pending@ == old(self).pending@.remove(id),
            r matches Some(w) ==> old(self).pending@.contains_key(id) && w == old(
                self,
            ).pending@[id],
            r is None ==> !old(self).pending@.contains_key(id),
    {
        self.pending.resolve(id)
    }
}

/// Id uniqueness and monotonicity. Each send takes the `next_id` of the
/// state it runs in and leaves `next_id + 1` behind, so N sends from a
/// dispatcher yield the ids `start, start + 1, ...`: pairwise distinct
/// and increasing in call order.
pub proof fn lemma_ids_distinct_increasing(ids: Seq<u64>, start: u64)
    requires
        ids.len() <= u64::MAX - start,
        forall|k: int| 0 <= k < ids.len() ==> ids[k] == start + k,
    ensures
        forall|i: int, j: int| 0 <= i < j < ids.len() ==> ids[i] < ids[j],
{
}

} // verus!
