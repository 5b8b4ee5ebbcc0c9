use vstd::prelude::*;

use crate::error::protocol_message;
use crate::profile::{
    all_features_spec, all_profile_ids, feature_key, profile_display_name, profile_hidden, profile_key,
    profile_max_name_len, profile_service_uuid, DeviceProfile, Feature, ProfileId,
};
use crate::settings::{entries_view, parse_all_spec, send_order, SettingsFile};
use crate::command::{body_spec, frame_spec, label_spec, Command};
use crate::command_json::{json_of, CommandJson};
use crate::packet::{encode_tx, to_hex};
use crate::text::hex_upper_spec;

verus! {

/// A device profile as the JSON interface writes it.
#[derive(Debug, Clone, PartialEq, Eq)]
pub struct ProfileJson {
    pub id: String,
    pub display_name: String,
    pub max_name_len: usize,
    pub unique_service_uuid: Option<String>,
    pub features: Vec<&'static str>,
}

/// The keys of the features in `fs` that `hidden` does not hold, in order.
pub open spec fn shown_feature_keys(fs: Seq<Feature>, hidden: Seq<Feature>) -> Seq<Seq<char>>
    decreases fs.len(),
{
    if fs.len() == 0 {
        Seq::empty()
    } else {
        let before = shown_feature_keys(fs.drop_last(), hidden);
        if hidden.contains(fs.last()) {
            before
        } else {
            before.push(feature_key(fs.last()))
        }
    }
}

/// Whether `j` is the JSON form of the built-in profile of model `id`.
pub open spec fn profile_json_of(id: ProfileId, j: ProfileJson) -> bool {
    &&& j.id@ == profile_key(id)
    &&& j.display_name@ == profile_display_name(id)
    &&& j.max_name_len == profile_max_name_len(id)
    &&& match profile_service_uuid(id) {
        Some(u) => (j.unique_service_uuid matches Some(s) && s@ == u),
        None => j.unique_service_uuid is None,
    }
    &&& j.features@.map_values(|s: &'static str| s@) == shown_feature_keys(all_features_spec(), profile_hidden(id))
}

/// Whether `j` is the JSON form of profile `p`: its key, name, name limit
/// and service UUID, and the keys of the features it does not hide.
pub open spec fn profile_json_fields(p: DeviceProfile, j: ProfileJson) -> bool {
    &&& j.id@ == profile_key(p.id)
    &&& j.display_name@ == p.display_name@
    &&& j.max_name_len == p.max_name_len
    &&& match p.unique_service_uuid {
        Some(u) => (j.unique_service_uuid matches Some(s) && s@ == u@),
        None => j.unique_service_uuid is None,
    }
    &&& j.features@.map_values(|s: &'static str| s@) == shown_feature_keys(all_features_spec(), p.hidden@)
}

impl ProfileJson {
    /// The JSON form of a profile: its data and the keys of the features it
    /// supports, in display order.
    pub fn from_profile(p: &DeviceProfile) -> (j: Self)
        ensures
            profile_json_fields(*p, j),
    {
        let all = Feature::all();
        let mut features: Vec<&'static str> = Vec::new();
        let mut i: usize = 0;
        while i < all.len()
            invariant
                i <= all@.len(),
                all@ == all_features_spec(),
                features@.map_values(|s: &'static str| s@) == shown_feature_keys(
                    all@.take(i as int),
                    p.hidden@,
                ),
            decreases all@.len() - i,
        {
            let f = all[i];
            assert(all@.take(i + 1).drop_last() =~= all@.take(i as int));
            if p.supports(f) {
                features.push(f.as_str());
            }
            i = i + 1;
            assert(features@.map_values(|s: &'static str| s@) =~= shown_feature_keys(
                all@.take(i as int),
                p.hidden@,
            ));
        }
        assert(all@.take(i as int) =~= all@);
        let unique_service_uuid = match p.unique_service_uuid {
            Some(u) => Some(u.to_owned()),
            None => None,
        };
        ProfileJson {
            id: p.id.as_str().to_owned(),
            display_name: p.display_name.to_owned(),
            max_name_len: p.max_name_len,
            unique_service_uuid,
            features,
        }
    }
}

/// Every built-in profile in its JSON form, in the order of `DeviceProfile::all`.
pub fn profile_list() -> (v: Vec<ProfileJson>)
    ensures
        v@.len() == all_profile_ids().len(),
        forall|i: int| 0 <= i < v@.len() ==> profile_json_of(all_profile_ids()[i], #[trigger] v@[i]),
{
    let profiles = DeviceProfile::all();
    let mut v: Vec<ProfileJson> = Vec::new();
    let mut i: usize = 0;
    while i < profiles.len()
        invariant
            i <= profiles@.len(),
            profiles@.len() == all_profile_ids().len(),
            forall|k: int|
                0 <= k < profiles@.len() ==> (#[trigger] profiles@[k]).id == all_profile_ids()[k]
                    && profiles@[k].is_builtin(),
            v@.len() == i,
            forall|k: int| 0 <= k < i ==> profile_json_of(all_profile_ids()[k], #[trigger] v@[k]),
        decreases profiles@.len() - i,
    {
        let j = ProfileJson::from_profile(&profiles[i]);
        v.push(j);
        i = i + 1;
    }
    v
}

/// A settings file as the JSON interface shows it: version, profile key and
/// the command bodies in send order, as hex.
#[derive(Debug, Clone, PartialEq, Eq)]
pub struct SettingsView {
    pub version: u32,
    pub name: String,
    pub bodies: Vec<String>,
}

impl SettingsView {
    /// Shows a settings file; the error is the message of the first command
    /// that is not valid hex.
    pub fn from_file(file: SettingsFile) -> (r: Result<Self, String>)
        ensures
            match parse_all_spec(send_order(entries_view(file.commands@))) {
                Ok(bodies) => (r matches Ok(view) && view.version == file.version && view.name@ == file.name@
                    && view.bodies@.len() == bodies.len() && forall|i: int|
                    0 <= i < bodies.len() ==> (#[trigger] view.bodies@[i])@ == hex_upper_spec(bodies[i])),
                Err(e) => (r matches Err(m) && m@ == protocol_message(e)),
            },
    {
        let bodies = match file.command_bodies() {
            Ok(b) => b,
            Err(e) => return Err(e.message()),
        };
        let ghost bv = bodies@.map_values(|b: Vec<u8>| b@);
        let mut hex: Vec<String> = Vec::new();
        let mut i: usize = 0;
        while i < bodies.len()
            invariant
                i <= bodies@.len(),
                bv == bodies@.map_values(|b: Vec<u8>| b@),
                hex@.len() == i,
                forall|k: int| 0 <= k < i ==> (#[trigger] hex@[k])@ == hex_upper_spec(bv[k]),
            decreases bodies@.len() - i,
        {
            hex.push(to_hex(bodies[i].as_slice()));
            i = i + 1;
        }
        Ok(SettingsView { version: file.version, name: file.name, bodies: hex })
    }
}

/// A command of a plan as the JSON interface lists it: label, body and
/// frame as hex, and the JSON request it stands for.
#[derive(Debug, Clone, PartialEq, Eq)]
pub struct PlannedCommand {
    pub label: String,
    pub body: String,
    pub hex: String,
    pub op: CommandJson,
}

/// Whether `p` lists command `c`, given that `c` encodes.
pub open spec fn planned_of(c: Command, p: PlannedCommand) -> bool {
    &&& p.label@ == label_spec(c)
    &&& body_spec(c) matches Ok(b) && p.body@ == hex_upper_spec(b)
    &&& frame_spec(c) matches Ok(f) && p.hex@ == hex_upper_spec(f)
    &&& json_of(c, p.op)
}

impl PlannedCommand {
    /// Lists one command; a command that does not encode (no body, or a
    /// body too long for a frame) is refused with the error's message.
    pub fn from_command(cmd: &Command) -> (r: Result<PlannedCommand, String>)
        ensures
            match frame_spec(*cmd) {
                Ok(_) => (r matches Ok(p) && planned_of(*cmd, p)),
                Err(e) => (r matches Err(m) && m@ == protocol_message(e)),
            },
    {
        let body = match cmd.to_body() {
            Ok(b) => b,
            Err(e) => return Err(e.message()),
        };
        let frame = match encode_tx(body.as_slice()) {
            Ok(f) => f,
            Err(e) => return Err(e.message()),
        };
        let op = match CommandJson::from_command(cmd) {
            Ok(j) => j,
            Err(e) => return Err(e.message()),
        };
        Ok(PlannedCommand { label: cmd.label().to_owned(), body: to_hex(body.as_slice()), hex: to_hex(frame.as_slice()), op })
    }
}

/// Lists the commands of a plan in order; the first command that does not
/// encode fails the whole list with its error's message.
pub fn plan_commands(cmds: &[Command]) -> (r: Result<Vec<PlannedCommand>, String>)
    ensures
        match r {
            Ok(v) => v@.len() == cmds@.len() && forall|i: int|
                0 <= i < v@.len() ==> planned_of(cmds@[i], #[trigger] v@[i]),
            Err(m) => exists|i: int|
                0 <= i < cmds@.len() && (forall|k: int| 0 <= k < i ==> (#[trigger] frame_spec(cmds@[k])) is Ok)
                    && (#[trigger] frame_spec(cmds@[i]) matches Err(e) && m@ == protocol_message(e)),
        },
        (forall|i: int| 0 <= i < cmds@.len() ==> (#[trigger] frame_spec(cmds@[i])) is Ok) <==> r is Ok,
{
    let mut v: Vec<PlannedCommand> = Vec::new();
    let mut i: usize = 0;
    while i < cmds.len()
        invariant
            i <= cmds@.len(),
            v@.len() == i,
            forall|k: int| 0 <= k < i ==> planned_of(cmds@[k], #[trigger] v@[k]),
            forall|k: int| 0 <= k < i ==> (#[trigger] frame_spec(cmds@[k])) is Ok,
        decreases cmds@.len() - i,
    {
        match PlannedCommand::from_command(&cmds[i]) {
            Ok(p) => v.push(p),
            Err(m) => {
                assert(frame_spec(cmds@[i as int]) is Err);
                assert(!(forall|k: int| 0 <= k < cmds@.len() ==> (#[trigger] frame_spec(cmds@[k])) is Ok));
                return Err(m);
            },
        }
        i = i + 1;
    }
    Ok(v)
}

} // verus!
