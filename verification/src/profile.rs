use vstd::prelude::*;

use crate::constants::{BLE_SERVICE_UUID_SUFFIX, W800K_SERVICE_UUID};
use crate::error::ProtocolError;
use crate::text::{chars_eq, chars_of, contains_chars, contains_exec, lower_chars, lower_chars_of, str_eq};
use vstd::utf8::encode_utf8;

verus! {

/// A setting a headset model may offer.
#[derive(Debug, Clone, Copy, PartialEq, Eq, Hash, Structural)]
pub enum Feature {
    Noise,
    AmbientSound,
    SoundEffect,
    ControlSettings,
    Ldac,
    GameMode,
    AutoPowerOff,
    PromptVolume,
    ShutdownTimer,
    Name,
    Playback,
}

/// Every feature, in display order.
pub open spec fn all_features_spec() -> Seq<Feature> {
    seq![
        Feature::Noise,
        Feature::AmbientSound,
        Feature::SoundEffect,
        Feature::ControlSettings,
        Feature::Ldac,
        Feature::GameMode,
        Feature::AutoPowerOff,
        Feature::PromptVolume,
        Feature::ShutdownTimer,
        Feature::Name,
        Feature::Playback,
    ]
}

/// The key of a feature.
pub open spec fn feature_key(f: Feature) -> Seq<char> {
    match f {
        Feature::Noise => "noise"@,
        Feature::AmbientSound => "ambient_sound"@,
        Feature::SoundEffect => "sound_effect"@,
        Feature::ControlSettings => "control_settings"@,
        Feature::Ldac => "ldac"@,
        Feature::GameMode => "game_mode"@,
        Feature::AutoPowerOff => "auto_power_off"@,
        Feature::PromptVolume => "prompt_volume"@,
        Feature::ShutdownTimer => "shutdown_timer"@,
        Feature::Name => "name"@,
        Feature::Playback => "playback"@,
    }
}

impl Feature {
    /// Every feature, in display order.
    pub fn all() -> (v: Vec<Feature>)
        ensures
            v@ == all_features_spec(),
    {
        let v = vec![
            Feature::Noise,
            Feature::AmbientSound,
            Feature::SoundEffect,
            Feature::ControlSettings,
            Feature::Ldac,
            Feature::GameMode,
            Feature::AutoPowerOff,
            Feature::PromptVolume,
            Feature::ShutdownTimer,
            Feature::Name,
            Feature::Playback,
        ];
        assert(v@ =~= all_features_spec());
        v
    }

    /// The key of the feature.
    pub fn as_str(self) -> (s: &'static str)
        ensures
            s@ == feature_key(self),
    {
        match self {
            Feature::Noise => "noise",
            Feature::AmbientSound => "ambient_sound",
            Feature::SoundEffect => "sound_effect",
            Feature::ControlSettings => "control_settings",
            Feature::Ldac => "ldac",
            Feature::GameMode => "game_mode",
            Feature::AutoPowerOff => "auto_power_off",
            Feature::PromptVolume => "prompt_volume",
            Feature::ShutdownTimer => "shutdown_timer",
            Feature::Name => "name",
            Feature::Playback => "playback",
        }
    }
}

/// The built-in headset models.
#[derive(Debug, Clone, Copy, PartialEq, Eq, Hash, Structural)]
pub enum ProfileId {
    Generic,
    W820Nb,
    W820NbDoubleGold,
    W200BtPlus,
}

/// The key of a profile.
pub open spec fn profile_key(id: ProfileId) -> Seq<char> {
    match id {
        ProfileId::Generic => "basedevice"@,
        ProfileId::W820Nb => "w820nb"@,
        ProfileId::W820NbDoubleGold => "w820nbdoublegold"@,
        ProfileId::W200BtPlus => "w200btplus"@,
    }
}

/// The profile a key names; "generic" is another name of the generic profile.
pub open spec fn profile_id_spec(name: Seq<char>) -> Option<ProfileId> {
    if name == "basedevice"@ || name == "generic"@ {
        Some(ProfileId::Generic)
    } else if name == "w820nb"@ {
        Some(ProfileId::W820Nb)
    } else if name == "w820nbdoublegold"@ {
        Some(ProfileId::W820NbDoubleGold)
    } else if name == "w200btplus"@ {
        Some(ProfileId::W200BtPlus)
    } else {
        None
    }
}

impl ProfileId {
    /// The key of the profile.
    pub fn as_str(self) -> (s: &'static str)
        ensures
            s@ == profile_key(self),
    {
        match self {
            ProfileId::Generic => "basedevice",
            ProfileId::W820Nb => "w820nb",
            ProfileId::W820NbDoubleGold => "w820nbdoublegold",
            ProfileId::W200BtPlus => "w200btplus",
        }
    }

    /// The profile a key names.
    pub fn parse(name: &str) -> (r: Option<Self>)
        ensures
            r == profile_id_spec(name@),
    {
        if str_eq(name, "basedevice") || str_eq(name, "generic") {
            Some(ProfileId::Generic)
        } else if str_eq(name, "w820nb") {
            Some(ProfileId::W820Nb)
        } else if str_eq(name, "w820nbdoublegold") {
            Some(ProfileId::W820NbDoubleGold)
        } else if str_eq(name, "w200btplus") {
            Some(ProfileId::W200BtPlus)
        } else {
            None
        }
    }
}

/// Law: a profile's key parses back to that profile.
pub proof fn law_profile_key_roundtrip(id: ProfileId)
    ensures
        profile_id_spec(profile_key(id)) == Some(id),
{
    reveal_strlit("basedevice");
    reveal_strlit("generic");
    reveal_strlit("w820nb");
    reveal_strlit("w820nbdoublegold");
    reveal_strlit("w200btplus");
    assert("basedevice"@.len() == 10 && "generic"@.len() == 7 && "w820nb"@.len() == 6);
    assert("w820nbdoublegold"@.len() == 16 && "w200btplus"@.len() == 10);
    assert("w200btplus"@[0] != "basedevice"@[0]);
}

/// Display name of a built-in profile.
pub open spec fn profile_display_name(id: ProfileId) -> Seq<char> {
    match id {
        ProfileId::Generic => "Generic Device"@,
        ProfileId::W820Nb => "W820NB"@,
        ProfileId::W820NbDoubleGold => "W820NB Double Gold"@,
        ProfileId::W200BtPlus => "W200BT Plus"@,
    }
}

/// BLE service UUID that only this model announces, if any.
pub open spec fn profile_service_uuid(id: ProfileId) -> Option<Seq<char>> {
    match id {
        ProfileId::Generic => None,
        ProfileId::W820Nb => Some("48093801-1a48-11e9-ab14-d663bd873d93"@),
        ProfileId::W820NbDoubleGold => Some("48097901-1a48-11e9-ab14-d663bd873d93"@),
        ProfileId::W200BtPlus => Some("48092801-1a48-11e9-ab14-d663bd873d93"@),
    }
}

/// Longest device name (in UTF-8 bytes) the model accepts.
pub open spec fn profile_max_name_len(id: ProfileId) -> usize {
    match id {
        ProfileId::W820NbDoubleGold => 30,
        _ => 24,
    }
}

/// Features the model does not offer.
pub open spec fn profile_hidden(id: ProfileId) -> Seq<Feature> {
    match id {
        ProfileId::Generic => seq![],
        ProfileId::W820Nb => seq![Feature::SoundEffect, Feature::ControlSettings],
        ProfileId::W820NbDoubleGold => seq![Feature::AutoPowerOff],
        ProfileId::W200BtPlus => seq![
            Feature::Noise,
            Feature::AmbientSound,
            Feature::ControlSettings,
            Feature::Ldac,
            Feature::GameMode,
        ],
    }
}

/// The built-in profiles, in order.
pub open spec fn all_profile_ids() -> Seq<ProfileId> {
    seq![ProfileId::Generic, ProfileId::W820Nb, ProfileId::W820NbDoubleGold, ProfileId::W200BtPlus]
}

/// Braces that may surround a UUID.
pub open spec fn is_brace(c: char) -> bool {
    c == '{' || c == '}'
}

/// `s` without leading braces.
pub open spec fn trim_start_braces(s: Seq<char>) -> Seq<char>
    decreases s.len(),
{
    if s.len() > 0 && is_brace(s[0]) {
        trim_start_braces(s.drop_first())
    } else {
        s
    }
}

/// `s` without trailing braces.
pub open spec fn trim_end_braces(s: Seq<char>) -> Seq<char>
    decreases s.len(),
{
    if s.len() > 0 && is_brace(s.last()) {
        trim_end_braces(s.drop_last())
    } else {
        s
    }
}

/// `s` without leading or trailing braces.
pub open spec fn trim_braces(s: Seq<char>) -> Seq<char> {
    trim_end_braces(trim_start_braces(s))
}

/// Whether the model's unique UUID equals `lower` up to ASCII case.
pub open spec fn uuid_matches(id: ProfileId, lower: Seq<char>) -> bool {
    match profile_service_uuid(id) {
        Some(u) => lower_chars(u) == lower,
        None => false,
    }
}

/// The model found by `by_service_uuid`: the first with a unique UUID that
/// equals `uuid`, braces trimmed, up to ASCII case.
pub open spec fn service_uuid_lookup(uuid: Seq<char>) -> Option<ProfileId> {
    let lower = lower_chars(trim_braces(uuid));
    if uuid_matches(ProfileId::W820Nb, lower) {
        Some(ProfileId::W820Nb)
    } else if uuid_matches(ProfileId::W820NbDoubleGold, lower) {
        Some(ProfileId::W820NbDoubleGold)
    } else if uuid_matches(ProfileId::W200BtPlus, lower) {
        Some(ProfileId::W200BtPlus)
    } else {
        None
    }
}

pub(crate) fn trim_braces_exec(s: &Vec<char>) -> (t: Vec<char>)
    ensures
        t@ == trim_braces(s@),
{
    let n = s.len();
    let mut lo: usize = 0;
    assert(s@.skip(0) =~= s@);
    while lo < n && (s[lo] == '{' || s[lo] == '}')
        invariant
            n == s@.len(),
            lo <= n,
            trim_start_braces(s@) == trim_start_braces(s@.skip(lo as int)),
        decreases n - lo,
    {
        assert(s@.skip(lo as int).drop_first() =~= s@.skip(lo + 1));
        lo = lo + 1;
    }
    assert(trim_start_braces(s@) == s@.skip(lo as int));
    let mut hi: usize = n;
    while hi > lo && (s[hi - 1] == '{' || s[hi - 1] == '}')
        invariant
            n == s@.len(),
            lo <= hi <= n,
            trim_braces(s@) == trim_end_braces(s@.subrange(lo as int, hi as int)),
        decreases hi - lo,
    {
        assert(s@.subrange(lo as int, hi as int).drop_last() =~= s@.subrange(lo as int, hi - 1));
        hi = hi - 1;
    }
    let mut t: Vec<char> = Vec::new();
    let mut k = lo;
    while k < hi
        invariant
            n == s@.len(),
            lo <= k <= hi <= n,
            t@ == s@.subrange(lo as int, k as int),
        decreases hi - k,
    {
        t.push(s[k]);
        k = k + 1;
        assert(t@ =~= s@.subrange(lo as int, k as int));
    }
    t
}

pub(crate) fn lower_chars_of_vec(s: &Vec<char>) -> (v: Vec<char>)
    ensures
        v@ == lower_chars(s@),
{
    let mut v: Vec<char> = Vec::with_capacity(s.len());
    let mut i: usize = 0;
    while i < s.len()
        invariant
            i <= s@.len(),
            v@ == lower_chars(s@.take(i as int)),
        decreases s@.len() - i,
    {
        v.push(crate::text::ascii_lower_char(s[i]));
        i = i + 1;
        assert(v@ =~= lower_chars(s@.take(i as int)));
    }
    assert(s@.take(i as int) =~= s@);
    v
}

/// What a headset model offers.
#[derive(Debug, Clone, PartialEq, Eq)]
pub struct DeviceProfile {
    pub id: ProfileId,
    pub display_name: &'static str,
    pub unique_service_uuid: Option<&'static str>,
    pub max_name_len: usize,
    pub hidden: Vec<Feature>,
}

impl DeviceProfile {
    /// The profile holds the built-in data of its model.
    pub open spec fn is_builtin(&self) -> bool {
        &&& self.display_name@ == profile_display_name(self.id)
        &&& match self.unique_service_uuid {
            Some(u) => profile_service_uuid(self.id) == Some(u@),
            None => profile_service_uuid(self.id) is None,
        }
        &&& self.max_name_len == profile_max_name_len(self.id)
        &&& self.hidden@ == profile_hidden(self.id)
    }

    /// Whether the model offers `feature`.
    pub fn supports(&self, feature: Feature) -> (r: bool)
        ensures
            r == !self.hidden@.contains(feature),
    {
        let mut i: usize = 0;
        while i < self.hidden.len()
            invariant
                i <= self.hidden@.len(),
                forall|k: int| 0 <= k < i ==> self.hidden@[k] != feature,
            decreases self.hidden@.len() - i,
        {
            if self.hidden[i] == feature {
                assert(self.hidden@[i as int] == feature);
                return false;
            }
            i = i + 1;
        }
        true
    }

    /// The built-in profile of a model.
    pub fn by_id(id: ProfileId) -> (p: DeviceProfile)
        ensures
            p.id == id,
            p.is_builtin(),
    {
        match id {
            ProfileId::Generic => {
                let hidden: Vec<Feature> = Vec::new();
                assert(hidden@ =~= profile_hidden(id));
                DeviceProfile {
                    id,
                    display_name: "Generic Device",
                    unique_service_uuid: None,
                    max_name_len: 24,
                    hidden,
                }
            },
            ProfileId::W820Nb => DeviceProfile {
                id,
                display_name: "W820NB",
                unique_service_uuid: Some("48093801-1a48-11e9-ab14-d663bd873d93"),
                max_name_len: 24,
                hidden: {
                    let h = vec![Feature::SoundEffect, Feature::ControlSettings];
                    assert(h@ =~= profile_hidden(id));
                    h
                },
            },
            ProfileId::W820NbDoubleGold => DeviceProfile {
                id,
                display_name: "W820NB Double Gold",
                unique_service_uuid: Some("48097901-1a48-11e9-ab14-d663bd873d93"),
                max_name_len: 30,
                hidden: {
                    let h = vec![Feature::AutoPowerOff];
                    assert(h@ =~= profile_hidden(id));
                    h
                },
            },
            ProfileId::W200BtPlus => {
                let hidden = vec![
                    Feature::Noise,
                    Feature::AmbientSound,
                    Feature::ControlSettings,
                    Feature::Ldac,
                    Feature::GameMode,
                ];
                assert(hidden@ =~= profile_hidden(id));
                DeviceProfile {
                    id,
                    display_name: "W200BT Plus",
                    unique_service_uuid: Some("48092801-1a48-11e9-ab14-d663bd873d93"),
                    max_name_len: 24,
                    hidden,
                }
            },
        }
    }

    /// All built-in profiles, in order.
    pub fn all() -> (v: Vec<DeviceProfile>)
        ensures
            v@.len() == all_profile_ids().len(),
            forall|i: int| 0 <= i < v@.len() ==> (#[trigger] v@[i]).id == all_profile_ids()[i] && v@[i].is_builtin(),
    {
        let mut v: Vec<DeviceProfile> = Vec::new();
        v.push(Self::by_id(ProfileId::Generic));
        v.push(Self::by_id(ProfileId::W820Nb));
        v.push(Self::by_id(ProfileId::W820NbDoubleGold));
        v.push(Self::by_id(ProfileId::W200BtPlus));
        v
    }

    /// The built-in profile a key names.
    pub fn by_key(key: &str) -> (r: Option<DeviceProfile>)
        ensures
            match profile_id_spec(key@) {
                Some(id) => r matches Some(p) && p.id == id && p.is_builtin(),
                None => r is None,
            },
    {
        match ProfileId::parse(key) {
            Some(id) => Some(Self::by_id(id)),
            None => None,
        }
    }

    /// The built-in profile whose unique BLE service UUID matches `uuid`,
    /// ignoring surrounding braces and ASCII case.
    pub fn by_service_uuid(uuid: &str) -> (r: Option<DeviceProfile>)
        ensures
            match service_uuid_lookup(uuid@) {
                Some(id) => r matches Some(p) && p.id == id && p.is_builtin(),
                None => r is None,
            },
    {
        let chars = chars_of(uuid);
        let trimmed = trim_braces_exec(&chars);
        let lower = lower_chars_of_vec(&trimmed);
        let ids: [ProfileId; 3] = [ProfileId::W820Nb, ProfileId::W820NbDoubleGold, ProfileId::W200BtPlus];
        let mut i: usize = 0;
        while i < 3
            invariant
                lower@ == lower_chars(trim_braces(uuid@)),
                ids@ == seq![ProfileId::W820Nb, ProfileId::W820NbDoubleGold, ProfileId::W200BtPlus],
                i <= 3,
                forall|k: int| 0 <= k < i ==> !uuid_matches(#[trigger] ids@[k], lower@),
            decreases 3 - i,
        {
            let p = Self::by_id(ids[i]);
            if let Some(u) = p.unique_service_uuid {
                let ul = lower_chars_of(u);
                if chars_eq(&ul, &lower) {
                    return Some(p);
                }
            }
            i = i + 1;
        }
        None
    }

    /// Whether a BLE service UUID looks like an Edifier one: it holds the
    /// common UUID tail, or is the W800K service, ignoring ASCII case.
    pub fn looks_like_edifier_ble_service(uuid: &str) -> (r: bool)
        ensures
            r == (contains_chars(lower_chars(uuid@), BLE_SERVICE_UUID_SUFFIX@)
                || lower_chars(uuid@) == lower_chars(W800K_SERVICE_UUID@)),
    {
        let lower = lower_chars_of(uuid);
        let suffix = chars_of(BLE_SERVICE_UUID_SUFFIX);
        if contains_exec(&lower, &suffix) {
            return true;
        }
        let w = lower_chars_of(W800K_SERVICE_UUID);
        chars_eq(&lower, &w)
    }

    /// Accepts a device name no longer (in UTF-8 bytes) than the model allows.
    pub fn check_name(&self, name: &str) -> (r: Result<(), ProtocolError>)
        ensures
            encode_utf8(name@).len() > self.max_name_len <==> r is Err,
            r is Err ==> r == Err::<(), ProtocolError>(ProtocolError::NameTooLong(self.max_name_len)),
    {
        if name.as_bytes().len() > self.max_name_len {
            Err(ProtocolError::NameTooLong(self.max_name_len))
        } else {
            Ok(())
        }
    }
}

} // verus!
