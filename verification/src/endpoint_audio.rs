use vstd::prelude::*;

use crate::audio::AudioState;

verus! {

/// The state of one audio render endpoint of the headphone.
#[derive(Debug, Clone, Copy, PartialEq, Eq, Structural)]
pub enum EndpointState {
    Active,
    Disconnected,
    Unknown,
}

/// The audio state the endpoints show: connected while any is active.
/// Endpoints that are gone or inactive only show that this host may be idle,
/// not that the system link is down, so the state is then unknown.
pub open spec fn endpoint_state_spec(states: Seq<EndpointState>) -> AudioState {
    if states.contains(EndpointState::Active) {
        AudioState::Connected
    } else {
        AudioState::Unknown
    }
}

/// The audio state shown by the headphone's render endpoints.
pub fn audio_state(states: &[EndpointState]) -> (r: AudioState)
    ensures
        r == endpoint_state_spec(states@),
{
    let mut i: usize = 0;
    while i < states.len()
        invariant
            i <= states@.len(),
            forall|k: int| 0 <= k < i ==> states@[k] != EndpointState::Active,
        decreases states@.len() - i,
    {
        match states[i] {
            EndpointState::Active => {
                assert(states@[i as int] == EndpointState::Active);
                return AudioState::Connected;
            },
            EndpointState::Disconnected | EndpointState::Unknown => {},
        }
        i = i + 1;
    }
    AudioState::Unknown
}

/// `DEVICE_STATE_ACTIVE` of the Windows audio endpoint API.
pub const DEVICE_STATE_ACTIVE: u32 = 1;

/// `DEVICE_STATE_NOTPRESENT` of the Windows audio endpoint API.
pub const DEVICE_STATE_NOTPRESENT: u32 = 4;

/// `DEVICE_STATE_UNPLUGGED` of the Windows audio endpoint API.
pub const DEVICE_STATE_UNPLUGGED: u32 = 8;

/// What an endpoint's device state says: active; unplugged or not present
/// count as disconnected; anything else (a disabled endpoint may still carry
/// an open stream) is unknown.
pub open spec fn endpoint_state_of(device_state: u32) -> EndpointState {
    if device_state == DEVICE_STATE_ACTIVE {
        EndpointState::Active
    } else if device_state == DEVICE_STATE_UNPLUGGED || device_state == DEVICE_STATE_NOTPRESENT {
        EndpointState::Disconnected
    } else {
        EndpointState::Unknown
    }
}

/// Reads an endpoint's device state.
pub fn classify_endpoint(device_state: u32) -> (r: EndpointState)
    ensures
        r == endpoint_state_of(device_state),
{
    if device_state == DEVICE_STATE_ACTIVE {
        EndpointState::Active
    } else if device_state == DEVICE_STATE_UNPLUGGED || device_state == DEVICE_STATE_NOTPRESENT {
        EndpointState::Disconnected
    } else {
        EndpointState::Unknown
    }
}

/// A render endpoint as the system lists it: the container id it belongs
/// to, where it can be read, and its device state.
#[derive(Debug, Clone, Copy, PartialEq, Eq)]
pub struct Endpoint {
    pub container: Option<u128>,
    pub state: u32,
}

/// The states of the endpoints that may belong to the headphone, in order:
/// those in one of its containers by their device state, and those whose
/// container cannot be read as unknown, since they might be its own.
pub open spec fn headphone_endpoints(endpoints: Seq<Endpoint>, containers: Seq<u128>) -> Seq<EndpointState>
    decreases endpoints.len(),
{
    if endpoints.len() == 0 {
        Seq::empty()
    } else {
        let before = headphone_endpoints(endpoints.drop_last(), containers);
        let e = endpoints.last();
        match e.container {
            None => before.push(EndpointState::Unknown),
            Some(c) => if containers.contains(c) {
                before.push(endpoint_state_of(e.state))
            } else {
                before
            },
        }
    }
}

/// The audio state of the headphone on this host. A dropped ACL link rules
/// audio out; while it is up, the endpoints decide, and neither switched-off
/// services nor vanished endpoints can confirm a release.
pub open spec fn system_state_spec(acl_connected: bool, containers: Seq<u128>, endpoints: Seq<Endpoint>) -> AudioState {
    if !acl_connected {
        AudioState::Disconnected
    } else {
        endpoint_state_spec(headphone_endpoints(endpoints, containers))
    }
}

/// The audio state of the headphone from its ACL link, its device
/// containers and the render endpoints the system lists.
pub fn system_audio_state(acl_connected: bool, containers: &[u128], endpoints: &[Endpoint]) -> (r: AudioState)
    ensures
        r == system_state_spec(acl_connected, containers@, endpoints@),
{
    if !acl_connected {
        return AudioState::Disconnected;
    }
    let mut states: Vec<EndpointState> = Vec::new();
    let mut i: usize = 0;
    while i < endpoints.len()
        invariant
            i <= endpoints@.len(),
            states@ == headphone_endpoints(endpoints@.take(i as int), containers@),
        decreases endpoints@.len() - i,
    {
        let e = endpoints[i];
        assert(endpoints@.take(i + 1).drop_last() =~= endpoints@.take(i as int));
        match e.container {
            None => states.push(EndpointState::Unknown),
            Some(c) => {
                let mut found = false;
                let mut k: usize = 0;
                while k < containers.len()
                    invariant
                        k <= containers@.len(),
                        found == exists|q: int| 0 <= q < k && containers@[q] == c,
                    decreases containers@.len() - k,
                {
                    if containers[k] == c {
                        found = true;
                    }
                    k = k + 1;
                }
                if found {
                    states.push(classify_endpoint(e.state));
                }
            },
        }
        i = i + 1;
    }
    assert(endpoints@.take(i as int) =~= endpoints@);
    audio_state(states.as_slice())
}

/// Adds a device container id unless it is the empty id or already listed.
pub fn add_container(containers: &mut Vec<u128>, id: u128)
    ensures
        final(containers)@ == (if id == 0 || old(containers)@.contains(id) {
            old(containers)@
        } else {
            old(containers)@.push(id)
        }),
{
    if id == 0 {
        return;
    }
    let mut k: usize = 0;
    while k < containers.len()
        invariant
            k <= containers@.len(),
            forall|q: int| 0 <= q < k ==> containers@[q] != id,
        decreases containers@.len() - k,
    {
        if containers[k] == id {
            assert(containers@[k as int] == id);
            return;
        }
        k = k + 1;
    }
    containers.push(id);
}

/// Law: endpoints alone never confirm a release: whatever the endpoints
/// show, the state they give is never `Disconnected`.
pub proof fn law_endpoints_never_confirm_release(states: Seq<EndpointState>)
    ensures
        endpoint_state_spec(states) != AudioState::Disconnected,
{
}

} // verus!
