//! The reader of densely packed nodes: it turns parallel arrays of deltas back into nodes, one
//! at a time.

use crate::delta::{delta_decode, lemma_running_totals_step, running_totals};
use crate::error::Error;
use crate::pbf::{DenseInfo, DenseNodes, Info};
use vstd::prelude::*;
use vstd::slice::slice_subrange;

verus! {

/// An unpacked dense node, returned when reading from a [`DenseNodeReader`].
#[derive(Debug, Clone, Copy)]
pub struct DenseNode<'a> {
    /// The id of the node.
    pub id: i64,
    /// Latitude of the node in an encoded format.
    pub lat: i64,
    /// Longitude of the node in an encoded format.
    pub lon: i64,
    /// Optional metadata.
    pub info: Option<Info>,
    /// Key/value index slice of the `keys_vals` of the dense nodes. Indices point into a string
    /// table. Use a [`crate::tags::DenseTagReader`] to read these key/value pairs conveniently.
    pub key_value_indices: &'a [i32],
}

/// A [`DenseNode`] as a mathematical value.
pub struct DenseNodeView {
    pub id: i64,
    pub lat: i64,
    pub lon: i64,
    pub info: Option<Info>,
    pub key_value_indices: Seq<i32>,
}

impl<'a> View for DenseNode<'a> {
    type V = DenseNodeView;

    open spec fn view(&self) -> DenseNodeView {
        DenseNodeView {
            id: self.id,
            lat: self.lat,
            lon: self.lon,
            info: self.info,
            key_value_indices: self.key_value_indices@,
        }
    }
}

/// The current totals of the delta coded fields.
#[derive(Debug, Clone, Copy, PartialEq, Eq)]
pub struct DeltaCodedValues {
    pub id: i64,
    pub lat: i64,
    pub lon: i64,
    pub timestamp: i64,
    pub changeset: i64,
    pub uid: i32,
    pub user_sid: u32,
}

/// Where a reader stands: the number of nodes read, the place in `keys_vals` where the tags of
/// the next node start, and the totals so far.
pub struct DenseState {
    pub index: nat,
    pub key_value_idx: nat,
    pub current: DeltaCodedValues,
}

/// The element of `s` with the index `i`, if there is one.
pub open spec fn element<T>(s: Seq<T>, i: nat) -> Option<T> {
    if i < s.len() {
        Some(s[i as int])
    } else {
        None
    }
}

/// The total `current` advanced by the delta with the index `i`, if there is one.
pub open spec fn advanced_i64(current: i64, deltas: Seq<i64>, i: nat) -> i64 {
    if i < deltas.len() {
        current.wrapping_add(deltas[i as int])
    } else {
        current
    }
}

/// The total `current` advanced by the delta with the index `i`, if there is one.
pub open spec fn advanced_i32(current: i32, deltas: Seq<i32>, i: nat) -> i32 {
    if i < deltas.len() {
        current.wrapping_add(deltas[i as int])
    } else {
        current
    }
}

/// The user string index `current` advanced by `delta`, unless that leaves the unsigned range.
pub open spec fn user_sid_advanced(current: u32, delta: i32) -> Option<u32> {
    if 0 <= current + delta <= u32::MAX {
        Some((current + delta) as u32)
    } else {
        None
    }
}

/// Whether the node with the index `i` cannot be decoded: it has a user string index delta,
/// and advancing by it leaves the unsigned range.
pub open spec fn user_sid_fails(data: &DenseNodes, current: DeltaCodedValues, i: nat) -> bool {
    data.denseinfo matches Some(info) && i < info.user_sid@.len() && user_sid_advanced(
        current.user_sid,
        info.user_sid@[i as int],
    ) is None
}

/// The end of the tags that start at `from`: the first place an even number of steps from
/// `from` that holds a zero, or the end of `keys_vals` if there is none.
pub open spec fn tags_end(keys_vals: Seq<i32>, from: nat) -> nat
    decreases keys_vals.len() + 1 - from,
{
    if from >= keys_vals.len() {
        keys_vals.len()
    } else if keys_vals[from as int] == 0 {
        from
    } else {
        tags_end(keys_vals, from + 2)
    }
}

/// Where the tags of the following node start: after the separating zero, or at the end of
/// `keys_vals` where there was none.
pub open spec fn tags_next(keys_vals: Seq<i32>, from: nat) -> nat {
    let end = tags_end(keys_vals, from);
    if end < keys_vals.len() {
        end + 1
    } else {
        keys_vals.len()
    }
}

/// The totals after the node with the index `i`.
///
/// The id and the coordinates always advance, and each metadata field advances as far as its
/// array reaches. A user string index that cannot be advanced stays as it is; nothing else
/// depends on it.
pub open spec fn totals_after(
    data: &DenseNodes,
    current: DeltaCodedValues,
    i: nat,
) -> DeltaCodedValues {
    let id = current.id.wrapping_add(data.id@[i as int]);
    let lat = current.lat.wrapping_add(data.lat@[i as int]);
    let lon = current.lon.wrapping_add(data.lon@[i as int]);
    match data.denseinfo {
        Some(info) => DeltaCodedValues {
            id,
            lat,
            lon,
            timestamp: advanced_i64(current.timestamp, info.timestamp@, i),
            changeset: advanced_i64(current.changeset, info.changeset@, i),
            uid: advanced_i32(current.uid, info.uid@, i),
            user_sid: if i < info.user_sid@.len() {
                match user_sid_advanced(current.user_sid, info.user_sid@[i as int]) {
                    Some(user_sid) => user_sid,
                    None => current.user_sid,
                }
            } else {
                current.user_sid
            },
        },
        None => DeltaCodedValues {
            id,
            lat,
            lon,
            timestamp: current.timestamp,
            changeset: current.changeset,
            uid: current.uid,
            user_sid: current.user_sid,
        },
    }
}

/// The metadata of the node with the index `i`, given the totals after it: a field is there
/// as far as its array reaches.
pub open spec fn info_at(info: &DenseInfo, after: DeltaCodedValues, i: nat) -> Info {
    Info {
        version: element(info.version@, i),
        timestamp: if i < info.timestamp@.len() {
            Some(after.timestamp)
        } else {
            None
        },
        changeset: if i < info.changeset@.len() {
            Some(after.changeset)
        } else {
            None
        },
        uid: if i < info.uid@.len() {
            Some(after.uid)
        } else {
            None
        },
        user_sid: if i < info.user_sid@.len() {
            Some(after.user_sid)
        } else {
            None
        },
        visible: element(info.visible@, i),
    }
}

/// The state after reading one more node, decoded or not: the reader moves past the node's
/// deltas and past its tags.
pub open spec fn state_after(data: &DenseNodes, state: DenseState) -> DenseState {
    DenseState {
        index: state.index + 1,
        key_value_idx: tags_next(data.keys_vals@, state.key_value_idx),
        current: totals_after(data, state.current, state.index),
    }
}

/// The node read in the state `state`, or `None` where its user string index cannot be
/// decoded.
pub open spec fn node_at(data: &DenseNodes, state: DenseState) -> Option<DenseNodeView> {
    if user_sid_fails(data, state.current, state.index) {
        None
    } else {
        let after = totals_after(data, state.current, state.index);
        Some(
            DenseNodeView {
                id: after.id,
                lat: after.lat,
                lon: after.lon,
                info: match data.denseinfo {
                    Some(info) => Some(info_at(&info, after, state.index)),
                    None => None,
                },
                key_value_indices: data.keys_vals@.subrange(
                    state.key_value_idx as int,
                    tags_end(data.keys_vals@, state.key_value_idx) as int,
                ),
            },
        )
    }
}

/// The state in which no node was read yet.
pub open spec fn initial_state() -> DenseState {
    DenseState {
        index: 0,
        key_value_idx: 0,
        current: DeltaCodedValues {
            id: 0,
            lat: 0,
            lon: 0,
            timestamp: 0,
            changeset: 0,
            uid: 0,
            user_sid: 0,
        },
    }
}

/// Whether the id, latitude and longitude arrays are equally long.
pub open spec fn counts_agree(data: &DenseNodes) -> bool {
    data.lat@.len() == data.id@.len() && data.lon@.len() == data.id@.len()
}

/// Text of the error for arrays of different lengths, made with `format!`.
#[verifier::external_body]
fn counts_differ_message(id: usize, lat: usize, lon: usize) -> String {
    format!("dense node id/lat/lon counts differ: {}/{}/{}", id, lat, lon)
}

/// Text of the error for a user string index that leaves the unsigned range, made with
/// `format!`.
#[verifier::external_body]
fn user_sid_message(current: u32, delta: i32) -> String {
    format!("delta decoding `user_sid` results in a negative integer: {}+{}", current, delta)
}

/// The end of the tags that start at `from` lies between `from` and the end of `keys_vals`.
pub proof fn lemma_tags_end_bounds(keys_vals: Seq<i32>, from: nat)
    requires
        from <= keys_vals.len(),
    ensures
        from <= tags_end(keys_vals, from) <= keys_vals.len(),
    decreases keys_vals.len() - from,
{
    if from < keys_vals.len() && keys_vals[from as int] != 0 {
        if from + 2 <= keys_vals.len() {
            lemma_tags_end_bounds(keys_vals, from + 2);
        }
    }
}

/// Finds the end of the tags that start at `from`.
fn find_tags_end(keys_vals: &[i32], from: usize) -> (end: usize)
    requires
        from <= keys_vals@.len(),
    ensures
        end == tags_end(keys_vals@, from as nat),
        from <= end <= keys_vals@.len(),
{
    let len = keys_vals.len();
    let mut i = from;
    while i < len && keys_vals[i] != 0
        invariant
            len == keys_vals@.len(),
            from <= i <= len,
            tags_end(keys_vals@, i as nat) == tags_end(keys_vals@, from as nat),
        decreases len - i,
    {
        if len - i < 2 {
            assert(tags_end(keys_vals@, (i + 2) as nat) == len);
            i = len;
        } else {
            i += 2;
        }
    }
    i
}

/// Utility for reading delta-encoded dense nodes.
pub struct DenseNodeReader<'a> {
    data: &'a DenseNodes,
    data_idx: usize,  // Index of the next node
    key_value_idx: usize,  // Starting index of the next node's keys/values
    current: DeltaCodedValues,  // Current values of delta coded fields
}

impl<'a> DenseNodeReader<'a> {
    /// The dense nodes that are read.
    pub closed spec fn data(&self) -> &DenseNodes {
        self.data
    }

    /// Where the reader stands.
    pub closed spec fn state(&self) -> DenseState {
        DenseState {
            index: self.data_idx as nat,
            key_value_idx: self.key_value_idx as nat,
            current: self.current,
        }
    }

    #[verifier::type_invariant]
    spec fn well_formed(&self) -> bool {
        &&& counts_agree(self.data)
        &&& self.data_idx <= self.data.id@.len()
        &&& self.key_value_idx <= self.data.keys_vals@.len()
    }

    /// Constructs a new `DenseNodeReader` from dense nodes. Fails with a logic error exactly
    /// where the id, latitude and longitude arrays are not equally long.
    pub fn new(data: &'a DenseNodes) -> (r: Result<Self, Error>)
        ensures
            match r {
                Ok(reader) => counts_agree(data) && reader.data() == data && reader.state()
                    == initial_state(),
                Err(e) => !counts_agree(data) && e is LogicError,
            },
    {
        if data.lat.len() != data.id.len() || data.lon.len() != data.id.len() {
            Err(
                Error::LogicError(
                    counts_differ_message(data.id.len(), data.lat.len(), data.lon.len()),
                ),
            )
        } else {
            Ok(
                DenseNodeReader {
                    data,
                    data_idx: 0,
                    key_value_idx: 0,
                    current: DeltaCodedValues {
                        id: 0,
                        lat: 0,
                        lon: 0,
                        timestamp: 0,
                        changeset: 0,
                        uid: 0,
                        user_sid: 0,
                    },
                },
            )
        }
    }

    /// Reads the next node. Returns `None`, and changes nothing, once there is a node for
    /// every id. Otherwise the reader moves on by one node, and the result is that node, or a
    /// logic error where the node's user string index leaves the unsigned range. Such an error
    /// concerns that node alone: the reader still moves past the node's deltas and tags, so the
    /// nodes after it are read as they would be without the error.
    pub fn next(&mut self) -> (r: Option<Result<DenseNode<'a>, Error>>)
        ensures
            final(self).data() == old(self).data(),
            match r {
                None => {
                    &&& old(self).state().index >= old(self).data().id@.len()
                    &&& final(self).state() == old(self).state()
                },
                Some(item) => {
                    &&& old(self).state().index < old(self).data().id@.len()
                    &&& final(self).state() == state_after(old(self).data(), old(self).state())
                    &&& match node_at(old(self).data(), old(self).state()) {
                        Some(node) => item matches Ok(n) && n@ == node,
                        None => item matches Err(e) && e is LogicError,
                    }
                },
            },
    {
        proof {
            use_type_invariant(&*self);
        }
        let data: &'a DenseNodes = self.data;
        let i = self.data_idx;
        if i >= data.id.len() {
            return None;
        }
        let mut current = self.current;
        self.data_idx = i + 1;
        current.id = current.id.wrapping_add(data.id[i]);
        current.lat = current.lat.wrapping_add(data.lat[i]);
        current.lon = current.lon.wrapping_add(data.lon[i]);

        let info = match &data.denseinfo {
            Some(dense_info) => {
                let version = if i < dense_info.version.len() {
                    Some(dense_info.version[i])
                } else {
                    None
                };
                let timestamp = if i < dense_info.timestamp.len() {
                    delta_decode(&mut current.timestamp, Some(&dense_info.timestamp[i]))
                } else {
                    None
                };
                let changeset = if i < dense_info.changeset.len() {
                    delta_decode(&mut current.changeset, Some(&dense_info.changeset[i]))
                } else {
                    None
                };
                let uid = if i < dense_info.uid.len() {
                    delta_decode(&mut current.uid, Some(&dense_info.uid[i]))
                } else {
                    None
                };
                let visible = if i < dense_info.visible.len() {
                    Some(dense_info.visible[i])
                } else {
                    None
                };
                let user_sid = if i < dense_info.user_sid.len() {
                    let delta = dense_info.user_sid[i];
                    match current.user_sid.checked_add_signed(delta) {
                        Some(user_sid) => {
                            current.user_sid = user_sid;
                            Ok(Some(user_sid))
                        },
                        None => Err(user_sid_message(current.user_sid, delta)),
                    }
                } else {
                    Ok(None)
                };
                match user_sid {
                    Ok(user_sid) => Ok(
                        Some(Info { version, timestamp, changeset, uid, user_sid, visible }),
                    ),
                    Err(message) => Err(message),
                }
            },
            None => Ok(None),
        };
        self.current = current;

        let start = self.key_value_idx;
        let end = find_tags_end(data.keys_vals.as_slice(), start);
        self.key_value_idx = if end < data.keys_vals.len() {
            end + 1
        } else {
            end
        };
        let key_value_indices = slice_subrange(data.keys_vals.as_slice(), start, end);

        match info {
            Ok(info) => Some(
                Ok(
                    DenseNode {
                        id: current.id,
                        lat: current.lat,
                        lon: current.lon,
                        info,
                        key_value_indices,
                    },
                ),
            ),
            Err(message) => Some(Err(Error::LogicError(message))),
        }
    }
}

/// A user string index that cannot be decoded concerns its node alone. The reader moves on by
/// one node as it does after any node: past the node's tags, and with every total advanced but
/// that of the user string index, which stays. The node after it is decoded exactly where its
/// own user string index can be.
pub proof fn lemma_user_sid_error_is_scoped(data: &DenseNodes, state: DenseState)
    requires
        counts_agree(data),
        state.index + 1 < data.id@.len(),
        user_sid_fails(data, state.current, state.index),
    ensures
        node_at(data, state) is None,
        data.denseinfo is Some,
        ({
            let next = state_after(data, state);
            let info = data.denseinfo->0;
            let i = state.index;
            &&& next.index == i + 1
            &&& next.key_value_idx == tags_next(data.keys_vals@, state.key_value_idx)
            &&& next.current.id == state.current.id.wrapping_add(data.id@[i as int])
            &&& next.current.lat == state.current.lat.wrapping_add(data.lat@[i as int])
            &&& next.current.lon == state.current.lon.wrapping_add(data.lon@[i as int])
            &&& next.current.timestamp == advanced_i64(state.current.timestamp, info.timestamp@, i)
            &&& next.current.changeset == advanced_i64(state.current.changeset, info.changeset@, i)
            &&& next.current.uid == advanced_i32(state.current.uid, info.uid@, i)
            &&& next.current.user_sid == state.current.user_sid
            &&& node_at(data, next) is Some <==> !user_sid_fails(data, next.current, i + 1)
        }),
{
}

/// Where the tags of the node with the index `n` start: after the tags of the `n` nodes before
/// it.
pub open spec fn tags_start(keys_vals: Seq<i32>, n: nat) -> nat
    decreases n,
{
    if n == 0 {
        0
    } else {
        tags_next(keys_vals, tags_start(keys_vals, (n - 1) as nat))
    }
}

/// The tags of the node with the index `n` start where they would if no node before it had
/// failed: the place of the tags depends on `keys_vals` alone.
pub proof fn lemma_tags_do_not_depend_on_errors(data: &DenseNodes, n: nat)
    ensures
        state_at(data, n).key_value_idx == tags_start(data.keys_vals@, n),
    decreases n,
{
    if n > 0 {
        lemma_tags_do_not_depend_on_errors(data, (n - 1) as nat);
    }
}

/// The tags of a node hold no separator at a key's place, and where they end before the end of
/// `keys_vals`, a separator follows them.
pub proof fn lemma_tags_end_at_separator(keys_vals: Seq<i32>, from: nat)
    requires
        from <= keys_vals.len(),
    ensures
        tags_end(keys_vals, from) < keys_vals.len() ==> keys_vals[tags_end(keys_vals, from) as int]
            == 0,
        forall|k: int|
            0 <= k && from + 2 * k < tags_end(keys_vals, from) ==> #[trigger] keys_vals[from + 2
                * k] != 0,
    decreases keys_vals.len() + 1 - from,
{
    lemma_tags_end_bounds(keys_vals, from);
    if from < keys_vals.len() && keys_vals[from as int] != 0 {
        if from + 2 <= keys_vals.len() {
            lemma_tags_end_at_separator(keys_vals, from + 2);
            assert forall|k: int|
                0 <= k && from + 2 * k < tags_end(keys_vals, from) implies #[trigger] keys_vals[from
                + 2 * k] != 0 by {
                if k > 0 {
                    assert(from + 2 + 2 * (k - 1) == from + 2 * k);
                    assert(keys_vals[from + 2 + 2 * (k - 1)] != 0);
                }
            }
        }
    }
}

/// The state after reading `n` nodes.
pub open spec fn state_at(data: &DenseNodes, n: nat) -> DenseState
    decreases n,
{
    if n == 0 {
        initial_state()
    } else {
        state_after(data, state_at(data, (n - 1) as nat))
    }
}

/// The ids and coordinates of dense nodes are the running totals of their deltas, whatever
/// becomes of the metadata: after the node with the index `i`, the totals of id, latitude and
/// longitude are the delta decoded values with that index.
pub proof fn lemma_positions_are_running_totals(data: &DenseNodes, i: int)
    requires
        counts_agree(data),
        0 <= i < data.id@.len(),
    ensures
        state_at(data, (i + 1) as nat).index == i + 1,
        state_at(data, (i + 1) as nat).current.id == running_totals(0i64, data.id@)[i],
        state_at(data, (i + 1) as nat).current.lat == running_totals(0i64, data.lat@)[i],
        state_at(data, (i + 1) as nat).current.lon == running_totals(0i64, data.lon@)[i],
    decreases i,
{
    lemma_running_totals_step(0i64, data.id@, i);
    lemma_running_totals_step(0i64, data.lat@, i);
    lemma_running_totals_step(0i64, data.lon@, i);
    assert(state_at(data, (i + 1) as nat) == state_after(data, state_at(data, i as nat)));
    if i > 0 {
        lemma_positions_are_running_totals(data, i - 1);
    }
}

} // verus!
