use vstd::prelude::*;
use std::collections::{HashMap, HashSet};
use crate::state::{fresh_id, ID_POOL_LIMIT};
use crate::videoroom_request::CreateParameters;

verus! {

/// Equality of create parameters up to container identity: every field
/// agrees, with the `allowed` list compared element by element.
pub open spec fn create_params_equiv(a: CreateParameters, b: CreateParameters) -> bool {
    &&& a.request == b.request
    &&& a.room == b.room
    &&& a.description == b.description
    &&& a.is_private == b.is_private
    &&& match (a.allowed, b.allowed) {
        (Some(x), Some(y)) => x@ == y@,
        (None, None) => true,
        _ => false,
    }
    &&& a.secret == b.secret
    &&& a.pin == b.pin
    &&& a.require_pvtid == b.require_pvtid
    &&& a.bitrate == b.bitrate
    &&& a.bitrate_cap == b.bitrate_cap
    &&& a.fir_freq == b.fir_freq
    &&& a.publishers == b.publishers
    &&& a.audiocodec == b.audiocodec
    &&& a.videocodec == b.videocodec
    &&& a.vp9_profile == b.vp9_profile
    &&& a.h264_profile == b.h264_profile
    &&& a.opus_fec == b.opus_fec
    &&& a.video_svc == b.video_svc
    &&& a.audiolevel_ext == b.audiolevel_ext
    &&& a.audiolevel_event == b.audiolevel_event
    &&& a.audio_active_packets == b.audio_active_packets
    &&& a.audio_level_average == b.audio_level_average
    &&& a.videoorient_ext == b.videoorient_ext
    &&& a.playoutdelay_ext == b.playoutdelay_ext
    &&& a.transport_wide_cc_ext == b.transport_wide_cc_ext
    &&& a.record == b.record
    &&& a.rec_dir == b.rec_dir
    &&& a.lock_record == b.lock_record
    &&& a.permanent == b.permanent
    &&& a.notify_joining == b.notify_joining
    &&& a.require_e2ee == b.require_e2ee
}

impl CreateParameters {
    /// A copy of the parameters, field by field.
    pub fn duplicate(&self) -> (r: CreateParameters)
        ensures
            create_params_equiv(r, *self),
    {
        CreateParameters {
            request: self.request.clone(),
            room: self.room,
            description: dup_opt_string(&self.description),
            is_private: self.is_private,
            allowed: match &self.allowed {
                Some(v) => Some(dup_strings(v)),
                None => None,
            },
            secret: dup_opt_string(&self.secret),
            pin: dup_opt_string(&self.pin),
            require_pvtid: self.require_pvtid,
            bitrate: self.bitrate,
            bitrate_cap: self.bitrate_cap,
            fir_freq: self.fir_freq,
            publishers: self.publishers,
            audiocodec: dup_opt_string(&self.audiocodec),
            videocodec: dup_opt_string(&self.videocodec),
            vp9_profile: dup_opt_string(&self.vp9_profile),
            h264_profile: dup_opt_string(&self.h264_profile),
            opus_fec: self.opus_fec,
            video_svc: self.video_svc,
            audiolevel_ext: self.audiolevel_ext,
            audiolevel_event: self.audiolevel_event,
            audio_active_packets: self.audio_active_packets,
            audio_level_average: self.audio_level_average,
            videoorient_ext: self.videoorient_ext,
            playoutdelay_ext: self.playoutdelay_ext,
            transport_wide_cc_ext: self.transport_wide_cc_ext,
            record: self.record,
            rec_dir: dup_opt_string(&self.rec_dir),
            lock_record: self.lock_record,
            permanent: self.permanent,
            notify_joining: self.notify_joining,
            require_e2ee: self.require_e2ee,
        }
    }
}

fn dup_opt_string(s: &Option<String>) -> (r: Option<String>)
    ensures
        r == *s,
{
    match s {
        Some(x) => Some(x.clone()),
        None => None,
    }
}

fn dup_strings(v: &Vec<String>) -> (r: Vec<String>)
    ensures
        r@ == v@,
{
    let mut out: Vec<String> = Vec::new();
    let mut i: usize = 0;
    while i < v.len()
        invariant
            0 <= i <= v@.len(),
            out@ == v@.take(i as int),
        decreases v.len() - i,
    {
        out.push(v[i].clone());
        proof {
            assert(out@ =~= v@.take(i + 1));
        }
        i = i + 1;
    }
    proof {
        assert(v@.take(v@.len() as int) =~= v@);
    }
    out
}

/// The catalogue of rooms the videoroom plugin has accepted: which room ids
/// exist and the create parameters stored for each.
pub trait VideoRoomStateProvider {
    /// The known room ids.
    spec fn rooms(&self) -> Set<u64>;

    /// The stored create parameters per room.
    spec fn room_params(&self) -> Map<u64, CreateParameters>;

    /// The known room ids in registration order.
    spec fn room_order(&self) -> Seq<u64>;

    /// Whether the catalogue is in a usable state.
    spec fn wf(&self) -> bool;

    /// Allocates a fresh non-zero room id and registers it.
    fn new_room_id(&mut self) -> (r: u64)
        requires
            old(self).wf(),
            old(self).rooms().len() < ID_POOL_LIMIT,
        ensures
            final(self).wf(),
            r != 0,
            !old(self).rooms().contains(r),
            final(self).rooms() == old(self).rooms().insert(r),
            final(self).room_order() == old(self).room_order().push(r),
            final(self).room_params() == old(self).room_params(),
    ;

    /// Whether a room id is known.
    fn has_room(&self, id: &u64) -> (r: bool)
        requires
            self.wf(),
        ensures
            r == self.rooms().contains(*id),
    ;

    /// Stores the create parameters of a room under its id.
    fn save_room_parameters(&mut self, params: CreateParameters)
        requires
            old(self).wf(),
            params.room is Some,
        ensures
            final(self).wf(),
            final(self).rooms() == old(self).rooms().insert(params.room.unwrap()),
            final(self).room_params() == old(self).room_params().insert(
                params.room.unwrap(),
                params,
            ),
            old(self).rooms().contains(params.room.unwrap()) ==> final(self).room_order() == old(
                self,
            ).room_order(),
            !old(self).rooms().contains(params.room.unwrap()) ==> final(self).room_order() == old(
                self,
            ).room_order().push(params.room.unwrap()),
    ;

    /// The stored create parameters of a room, if any.
    fn get_room_parameters(&self, room: &u64) -> (r: Option<CreateParameters>)
        requires
            self.wf(),
        ensures
            match r {
                Some(p) => self.room_params().contains_key(*room) && create_params_equiv(
                    p,
                    self.room_params()[*room],
                ),
                None => !self.room_params().contains_key(*room),
            },
    ;

    /// The known room ids, in registration order.
    fn list_rooms(&self) -> (r: Vec<u64>)
        requires
            self.wf(),
        ensures
            r@ == self.room_order(),
    ;
}

/// The in-memory room catalogue.
pub struct MemoryVideoRoomState {
    rooms: HashSet<u64>,
    params: HashMap<u64, CreateParameters>,
    order: Vec<u64>,
}

impl MemoryVideoRoomState {
    pub fn new() -> (r: MemoryVideoRoomState)
        ensures
            r.wf(),
            r.rooms() == Set::<u64>::empty(),
            r.room_params() == Map::<u64, CreateParameters>::empty(),
            r.room_order() == Seq::<u64>::empty(),
    {
        MemoryVideoRoomState {
            rooms: HashSet::new(),
            params: HashMap::new(),
            order: Vec::new(),
        }
    }
}

impl VideoRoomStateProvider for MemoryVideoRoomState {
    closed spec fn rooms(&self) -> Set<u64> {
        self.rooms@
    }

    closed spec fn room_params(&self) -> Map<u64, CreateParameters> {
        self.params@
    }

    closed spec fn room_order(&self) -> Seq<u64> {
        self.order@
    }

    closed spec fn wf(&self) -> bool {
        &&& self.rooms@.finite()
        &&& forall|i: int| 0 <= i < self.order@.len() ==> self.rooms@.contains(
            #[trigger] self.order@[i],
        )
        &&& forall|id: u64| self.rooms@.contains(id) ==> self.order@.contains(id)
        &&& forall|i: int, j: int| 0 <= i < j < self.order@.len() ==> self.order@[i]
            != self.order@[j]
    }

    fn new_room_id(&mut self) -> (r: u64) {
        let id = fresh_id(&self.rooms);
        self.rooms.insert(id);
        self.order.push(id);
        proof {
            assert forall|x: u64| self.rooms@.contains(x) implies self.order@.contains(x) by {
                if x == id {
                    assert(self.order@.last() == id);
                } else {
                    let k = choose|k: int|
                        0 <= k < old(self).order@.len() && old(self).order@[k] == x;
                    assert(self.order@[k] == x);
                }
            }
        }
        id
    }

    fn has_room(&self, id: &u64) -> (r: bool) {
        self.rooms.contains(id)
    }

    fn save_room_parameters(&mut self, params: CreateParameters) {
        let room = match params.room {
            Some(r) => r,
            None => {
                return;
            },
        };
        let known = self.rooms.contains(&room);
        self.rooms.insert(room);
        self.params.insert(room, params);
        if !known {
            self.order.push(room);
        }
        proof {
            assert forall|x: u64| self.rooms@.contains(x) implies self.order@.contains(x) by {
                if x == room && !known {
                    assert(self.order@.last() == room);
                } else {
                    let k = choose|k: int|
                        0 <= k < old(self).order@.len() && old(self).order@[k] == x;
                    assert(self.order@[k] == x);
                }
            }
        }
    }

    fn get_room_parameters(&self, room: &u64) -> (r: Option<CreateParameters>) {
        match self.params.get(room) {
            Some(p) => Some(p.duplicate()),
            None => None,
        }
    }

    fn list_rooms(&self) -> (r: Vec<u64>) {
        dup_ids(&self.order)
    }
}

fn dup_ids(v: &Vec<u64>) -> (r: Vec<u64>)
    ensures
        r@ == v@,
{
    let mut out: Vec<u64> = Vec::new();
    let mut i: usize = 0;
    while i < v.len()
        invariant
            0 <= i <= v@.len(),
            out@ == v@.take(i as int),
        decreases v.len() - i,
    {
        out.push(v[i]);
        proof {
            assert(out@ =~= v@.take(i + 1));
        }
        i = i + 1;
    }
    proof {
        assert(v@.take(v@.len() as int) =~= v@);
    }
    out
}

} // verus!
