use vstd::prelude::*;

use crate::command::{body_spec, export_priority_spec, label_spec, Command};
use crate::error::ProtocolError;
use crate::packet::{parse_hex, parse_hex_spec, to_hex};
use crate::packet::law_hex_roundtrip;
use crate::text::{hex_upper_spec, lemma_hex_upper_shape};

verus! {

/// Version of the settings file format this library writes.
pub const SETTINGS_FORMAT_VERSION: u32 = 1;

/// One exported command: its body as hex, an optional label and the order
/// in which it is sent back.
#[derive(Debug, Clone, PartialEq, Eq)]
pub struct SettingsCommand {
    pub cmd: String,
    pub name: Option<String>,
    pub priority: u8,
}

/// The mathematical value of a settings entry.
pub struct SettingsCommandView {
    pub cmd: Seq<char>,
    pub name: Option<Seq<char>>,
    pub priority: u8,
}

impl View for SettingsCommand {
    type V = SettingsCommandView;

    open spec fn view(&self) -> SettingsCommandView {
        SettingsCommandView {
            cmd: self.cmd@,
            name: match self.name {
                Some(n) => Some(n@),
                None => None,
            },
            priority: self.priority,
        }
    }
}

/// A settings file: format version, profile key and commands.
#[derive(Debug, Clone, PartialEq, Eq)]
pub struct SettingsFile {
    pub version: u32,
    pub name: String,
    pub commands: Vec<SettingsCommand>,
}

/// The entries of a settings file, as values.
pub open spec fn entries_view(commands: Seq<SettingsCommand>) -> Seq<SettingsCommandView> {
    commands.map_values(|c: SettingsCommand| c@)
}

/// The entry exported for a command with body `body`.
pub open spec fn entry_of(cmd: Command, body: Seq<u8>) -> SettingsCommandView {
    SettingsCommandView { cmd: hex_upper_spec(body), name: Some(label_spec(cmd)), priority: export_priority_spec(cmd) }
}

/// The entries exported for `cmds`, or the error of the first command that
/// has no body.
pub open spec fn export_spec(cmds: Seq<Command>) -> Result<Seq<SettingsCommandView>, ProtocolError>
    decreases cmds.len(),
{
    if cmds.len() == 0 {
        Ok(Seq::empty())
    } else {
        match export_spec(cmds.drop_last()) {
            Err(e) => Err(e),
            Ok(es) => match body_spec(cmds.last()) {
                Err(e) => Err(e),
                Ok(b) => Ok(es.push(entry_of(cmds.last(), b))),
            },
        }
    }
}

/// Send group of an entry: its priority, at most 2.
pub open spec fn group_of(priority: u8) -> u8 {
    if priority < 2 {
        priority
    } else {
        2
    }
}

/// The non-empty command strings of group `g`, in file order.
pub open spec fn group_spec(entries: Seq<SettingsCommandView>, g: u8) -> Seq<Seq<char>>
    decreases entries.len(),
{
    if entries.len() == 0 {
        Seq::empty()
    } else {
        let before = group_spec(entries.drop_last(), g);
        let e = entries.last();
        if group_of(e.priority) == g && e.cmd.len() > 0 {
            before.push(e.cmd)
        } else {
            before
        }
    }
}

/// The command strings in send order: group 0, then 1, then 2; empty ones skipped.
pub open spec fn send_order(entries: Seq<SettingsCommandView>) -> Seq<Seq<char>> {
    group_spec(entries, 0) + group_spec(entries, 1) + group_spec(entries, 2)
}

/// Every string parsed as hex, or the error of the first that fails.
pub open spec fn parse_all_spec(strs: Seq<Seq<char>>) -> Result<Seq<Seq<u8>>, ProtocolError>
    decreases strs.len(),
{
    if strs.len() == 0 {
        Ok(Seq::empty())
    } else {
        match parse_all_spec(strs.drop_last()) {
            Err(e) => Err(e),
            Ok(bs) => match parse_hex_spec(strs.last()) {
                Err(e) => Err(e),
                Ok(b) => Ok(bs.push(b)),
            },
        }
    }
}

proof fn lemma_parse_all_err_extends(a: Seq<Seq<char>>, b: Seq<Seq<char>>)
    requires
        parse_all_spec(a) is Err,
    ensures
        parse_all_spec(a + b) == parse_all_spec(a),
    decreases b.len(),
{
    if b.len() == 0 {
        assert(a + b =~= a);
    } else {
        lemma_parse_all_err_extends(a, b.drop_last());
        assert((a + b).drop_last() =~= a + b.drop_last());
    }
}

/// What a settings document must look like before it is decoded: the
/// facts the importer reads from the parsed JSON.
#[derive(Debug, Clone, Copy, PartialEq, Eq)]
pub struct SettingsShape {
    /// The document is a JSON object.
    pub is_object: bool,
    /// Its `version` member, where that is an unsigned integer.
    pub version: Option<u64>,
    /// It has a `commands` member that is an array.
    pub has_commands_array: bool,
    /// It has a `name` member.
    pub has_name: bool,
}

/// How an accepted document is completed before it is decoded.
#[derive(Debug, Clone, Copy, PartialEq, Eq)]
pub struct SettingsUpgrade {
    /// The version written into the document.
    pub version: u32,
    /// The name written into the document where it has none.
    pub default_name: Option<&'static str>,
}

/// The version the importer reads: the member truncated to 32 bits, 0 if absent.
pub open spec fn read_version(v: Option<u64>) -> u32 {
    match v {
        Some(x) => x as u32,
        None => 0,
    }
}

/// What `plan_migration` decides for a document.
pub open spec fn migration_spec(shape: SettingsShape) -> Result<(u32, bool), ProtocolError> {
    if !shape.is_object {
        Err(ProtocolError::SettingsNotObject)
    } else if read_version(shape.version) > SETTINGS_FORMAT_VERSION {
        Err(ProtocolError::SettingsVersion(read_version(shape.version)))
    } else if !shape.has_commands_array {
        Err(ProtocolError::SettingsMissingCommands)
    } else {
        Ok((SETTINGS_FORMAT_VERSION, !shape.has_name))
    }
}

fn to_u32_truncating(x: u64) -> (r: u32)
    ensures
        r == x as u32,
{
    x as u32
}

impl SettingsFile {
    /// Exports commands as a settings file for the profile `profile_key`;
    /// fails with the error of the first command that has no body.
    pub fn from_commands(profile_key: &str, commands: &[Command]) -> (r: Result<Self, ProtocolError>)
        ensures
            match r {
                Ok(f) => export_spec(commands@) == Ok::<Seq<SettingsCommandView>, ProtocolError>(
                    entries_view(f.commands@),
                ) && f.version == SETTINGS_FORMAT_VERSION && f.name@ == profile_key@,
                Err(e) => export_spec(commands@) == Err::<Seq<SettingsCommandView>, ProtocolError>(e),
            },
    {
        let mut items: Vec<SettingsCommand> = Vec::new();
        let mut i: usize = 0;
        assert(commands@.take(0) =~= Seq::<Command>::empty());
        assert(entries_view(items@) =~= Seq::<SettingsCommandView>::empty());
        while i < commands.len()
            invariant
                i <= commands@.len(),
                export_spec(commands@.take(i as int)) == Ok::<Seq<SettingsCommandView>, ProtocolError>(
                    entries_view(items@),
                ),
            decreases commands@.len() - i,
        {
            let cmd = &commands[i];
            assert(commands@.take(i + 1).drop_last() =~= commands@.take(i as int));
            assert(commands@.take(i + 1).last() == *cmd);
            let body = match cmd.to_body() {
                Ok(b) => b,
                Err(e) => {
                    proof {
                        lemma_export_err_extends(commands@, (i + 1) as nat);
                    }
                    return Err(e);
                },
            };
            let label = cmd.label();
            let entry = SettingsCommand {
                cmd: to_hex(body.as_slice()),
                name: Some(label.to_owned()),
                priority: cmd.export_priority(),
            };
            let ghost before = entries_view(items@);
            items.push(entry);
            assert(entries_view(items@) =~= before.push(entry_of(*cmd, body@)));
            i = i + 1;
        }
        assert(commands@.take(i as int) =~= commands@);
        Ok(SettingsFile { version: SETTINGS_FORMAT_VERSION, name: profile_key.to_owned(), commands: items })
    }

    /// The command bodies in send order: entries of priority 0, then 1, then
    /// 2 or more, each group in file order; empty commands are skipped, and
    /// the first that is not valid hex fails the whole list.
    pub fn command_bodies(&self) -> (r: Result<Vec<Vec<u8>>, ProtocolError>)
        ensures
            match r {
                Ok(v) => parse_all_spec(send_order(entries_view(self.commands@)))
                    == Ok::<Seq<Seq<u8>>, ProtocolError>(v@.map_values(|b: Vec<u8>| b@)),
                Err(e) => parse_all_spec(send_order(entries_view(self.commands@))) == Err::<
                    Seq<Seq<u8>>,
                    ProtocolError,
                >(e),
            },
    {
        let ghost entries = entries_view(self.commands@);
        let mut out: Vec<Vec<u8>> = Vec::new();
        let mut g: u8 = 0;
        let ghost mut done: Seq<Seq<char>> = Seq::empty();
        assert(out@.map_values(|b: Vec<u8>| b@) =~= Seq::<Seq<u8>>::empty());
        while g < 3
            invariant
                g <= 3,
                entries == entries_view(self.commands@),
                done == (if g == 0 {
                    Seq::<Seq<char>>::empty()
                } else if g == 1 {
                    group_spec(entries, 0)
                } else if g == 2 {
                    group_spec(entries, 0) + group_spec(entries, 1)
                } else {
                    send_order(entries)
                }),
                parse_all_spec(done) == Ok::<Seq<Seq<u8>>, ProtocolError>(out@.map_values(|b: Vec<u8>| b@)),
            decreases 3 - g,
        {
            let mut i: usize = 0;
            assert(group_spec(entries.take(0), g) =~= Seq::<Seq<char>>::empty());
            assert(done + Seq::<Seq<char>>::empty() =~= done);
            while i < self.commands.len()
                invariant
                    g < 3,
                    i <= self.commands@.len(),
                    done == (if g == 0 {
                        Seq::<Seq<char>>::empty()
                    } else if g == 1 {
                        group_spec(entries, 0)
                    } else {
                        group_spec(entries, 0) + group_spec(entries, 1)
                    }),
                    entries == entries_view(self.commands@),
                    parse_all_spec(done + group_spec(entries.take(i as int), g)) == Ok::<
                        Seq<Seq<u8>>,
                        ProtocolError,
                    >(out@.map_values(|b: Vec<u8>| b@)),
                decreases self.commands@.len() - i,
            {
                let item = &self.commands[i];
                assert(entries.take(i + 1).drop_last() =~= entries.take(i as int));
                assert(entries.take(i + 1).last() == item@);
                let grp: u8 = if item.priority < 2 { item.priority } else { 2 };
                let text = item.cmd.as_str();
                if grp == g && !text.is_empty() {
                    let ghost prev = done + group_spec(entries.take(i as int), g);
                    assert(done + group_spec(entries.take(i + 1), g) =~= prev.push(item.cmd@));
                    match parse_hex(text) {
                        Ok(bytes) => {
                            let ghost before = out@.map_values(|b: Vec<u8>| b@);
                            out.push(bytes);
                            assert(out@.map_values(|b: Vec<u8>| b@) =~= before.push(bytes@));
                            assert(prev.push(item.cmd@).drop_last() =~= prev);
                        },
                        Err(e) => {
                            proof {
                                assert(prev.push(item.cmd@).drop_last() =~= prev);
                                let so_far = prev.push(item.cmd@);
                                let whole = send_order(entries);
                                lemma_group_prefix(entries, g, (i + 1) as nat);
                                let rest = whole.subrange(so_far.len() as int, whole.len() as int);
                                assert(so_far + rest =~= whole);
                                lemma_parse_all_err_extends(so_far, rest);
                            }
                            return Err(e);
                        },
                    }
                } else {
                    assert(group_spec(entries.take(i + 1), g) =~= group_spec(entries.take(i as int), g));
                }
                i = i + 1;
            }
            assert(entries.take(i as int) =~= entries);
            proof {
                done = done + group_spec(entries, g);
            }
            g = g + 1;
        }
        Ok(out)
    }

    /// Decides whether a parsed settings document is accepted, and how it is
    /// completed: a document that is not an object, has a newer version, or
    /// has no `commands` array is refused; else it gets the current version,
    /// and the name "basedevice" if it has none.
    pub fn plan_migration(shape: &SettingsShape) -> (r: Result<SettingsUpgrade, ProtocolError>)
        ensures
            match r {
                Ok(u) => migration_spec(*shape) == Ok::<(u32, bool), ProtocolError>(
                    (u.version, u.default_name is Some),
                ) && (u.default_name matches Some(n) ==> n@ == "basedevice"@),
                Err(e) => migration_spec(*shape) == Err::<(u32, bool), ProtocolError>(e),
            },
    {
        if !shape.is_object {
            return Err(ProtocolError::SettingsNotObject);
        }
        let version: u32 = match shape.version {
            Some(x) => to_u32_truncating(x),
            None => 0,
        };
        if version > SETTINGS_FORMAT_VERSION {
            return Err(ProtocolError::SettingsVersion(version));
        }
        if !shape.has_commands_array {
            return Err(ProtocolError::SettingsMissingCommands);
        }
        let default_name = if shape.has_name { None } else { Some("basedevice") };
        Ok(SettingsUpgrade { version: SETTINGS_FORMAT_VERSION, default_name })
    }
}

proof fn lemma_export_err_extends(cmds: Seq<Command>, n: nat)
    requires
        n <= cmds.len(),
        export_spec(cmds.take(n as int)) is Err,
    ensures
        export_spec(cmds) == export_spec(cmds.take(n as int)),
    decreases cmds.len() - n,
{
    if n == cmds.len() {
        assert(cmds.take(n as int) =~= cmds);
    } else {
        assert(cmds.take((n + 1) as int).drop_last() =~= cmds.take(n as int));
        lemma_export_err_extends(cmds, n + 1);
    }
}

/// The groups before `g`, then group `g` of the first `n` entries, is a
/// prefix of the send order.
proof fn lemma_group_prefix(entries: Seq<SettingsCommandView>, g: u8, n: nat)
    requires
        g < 3,
        n <= entries.len(),
    ensures
        ({
            let done = if g == 0 {
                Seq::<Seq<char>>::empty()
            } else if g == 1 {
                group_spec(entries, 0)
            } else {
                group_spec(entries, 0) + group_spec(entries, 1)
            };
            let p = done + group_spec(entries.take(n as int), g);
            p.len() <= send_order(entries).len() && p == send_order(entries).take(p.len() as int)
        }),
{
    lemma_group_take_prefix(entries, g, n);
    let gg = group_spec(entries, g);
    let gp = group_spec(entries.take(n as int), g);
    let done = if g == 0 {
        Seq::<Seq<char>>::empty()
    } else if g == 1 {
        group_spec(entries, 0)
    } else {
        group_spec(entries, 0) + group_spec(entries, 1)
    };
    let whole = send_order(entries);
    let tail = if g == 0 {
        group_spec(entries, 1) + group_spec(entries, 2)
    } else if g == 1 {
        group_spec(entries, 2)
    } else {
        Seq::<Seq<char>>::empty()
    };
    assert(whole =~= done + gg + tail);
    let p = done + gp;
    assert(p =~= whole.take(p.len() as int));
}

/// Group `g` of the first `n` entries is a prefix of group `g` of all entries.
proof fn lemma_group_take_prefix(entries: Seq<SettingsCommandView>, g: u8, n: nat)
    requires
        n <= entries.len(),
    ensures
        group_spec(entries.take(n as int), g).len() <= group_spec(entries, g).len(),
        group_spec(entries.take(n as int), g) == group_spec(entries, g).take(
            group_spec(entries.take(n as int), g).len() as int,
        ),
    decreases entries.len() - n,
{
    if n == entries.len() {
        assert(entries.take(n as int) =~= entries);
        assert(group_spec(entries, g).take(group_spec(entries, g).len() as int) =~= group_spec(entries, g));
    } else {
        lemma_group_take_prefix(entries, g, n + 1);
        assert(entries.take((n + 1) as int).drop_last() =~= entries.take(n as int));
        let a = group_spec(entries.take(n as int), g);
        let b = group_spec(entries.take((n + 1) as int), g);
        let full = group_spec(entries, g);
        assert(b.take(a.len() as int) =~= a);
        assert(a =~= full.take(a.len() as int));
    }
}

/// The bodies of the commands in send group `g`, empty bodies left out, in
/// order; meaningful where every command has a body.
pub open spec fn body_group(cmds: Seq<Command>, g: u8) -> Seq<Seq<u8>>
    decreases cmds.len(),
{
    if cmds.len() == 0 {
        Seq::empty()
    } else {
        let before = body_group(cmds.drop_last(), g);
        let c = cmds.last();
        match body_spec(c) {
            Ok(b) => if group_of(export_priority_spec(c)) == g && b.len() > 0 {
                before.push(b)
            } else {
                before
            },
            Err(_) => before,
        }
    }
}

proof fn lemma_export_groups(cmds: Seq<Command>, g: u8)
    requires
        export_spec(cmds) is Ok,
    ensures
        group_spec(export_spec(cmds)->Ok_0, g) == body_group(cmds, g).map_values(|b: Seq<u8>| hex_upper_spec(b)),
    decreases cmds.len(),
{
    if cmds.len() == 0 {
        assert(body_group(cmds, g).map_values(|b: Seq<u8>| hex_upper_spec(b)) =~= Seq::<Seq<char>>::empty());
    } else {
        let es = export_spec(cmds)->Ok_0;
        let prev = export_spec(cmds.drop_last());
        assert(prev is Ok);
        lemma_export_groups(cmds.drop_last(), g);
        let b = body_spec(cmds.last())->Ok_0;
        assert(es == prev->Ok_0.push(entry_of(cmds.last(), b)));
        assert(es.drop_last() =~= prev->Ok_0);
        lemma_hex_upper_shape(b);
        let before = body_group(cmds.drop_last(), g);
        if group_of(export_priority_spec(cmds.last())) == g && b.len() > 0 {
            assert(before.push(b).map_values(|x: Seq<u8>| hex_upper_spec(x)) =~= before.map_values(
                |x: Seq<u8>| hex_upper_spec(x),
            ).push(hex_upper_spec(b)));
        }
    }
}

proof fn lemma_parse_all_hex(bs: Seq<Seq<u8>>)
    ensures
        parse_all_spec(bs.map_values(|b: Seq<u8>| hex_upper_spec(b))) == Ok::<Seq<Seq<u8>>, ProtocolError>(bs),
    decreases bs.len(),
{
    let hs = bs.map_values(|b: Seq<u8>| hex_upper_spec(b));
    if bs.len() > 0 {
        lemma_parse_all_hex(bs.drop_last());
        assert(hs.drop_last() =~= bs.drop_last().map_values(|b: Seq<u8>| hex_upper_spec(b)));
        law_hex_roundtrip(bs.last());
        assert(bs.drop_last().push(bs.last()) =~= bs);
    } else {
        assert(hs =~= Seq::<Seq<char>>::empty());
        assert(bs =~= Seq::<Seq<u8>>::empty());
    }
}

proof fn lemma_map_concat(a: Seq<Seq<u8>>, b: Seq<Seq<u8>>)
    ensures
        (a + b).map_values(|x: Seq<u8>| hex_upper_spec(x)) == a.map_values(|x: Seq<u8>| hex_upper_spec(x))
            + b.map_values(|x: Seq<u8>| hex_upper_spec(x)),
{
    assert((a + b).map_values(|x: Seq<u8>| hex_upper_spec(x)) =~= a.map_values(|x: Seq<u8>| hex_upper_spec(x))
        + b.map_values(|x: Seq<u8>| hex_upper_spec(x)));
}

/// Law: a settings file exported from commands that all have a body gives
/// those bodies back in send order: the commands of priority 0, then 1, then
/// 2, each group in the order the commands were given.
pub proof fn law_export_roundtrip(cmds: Seq<Command>)
    requires
        export_spec(cmds) is Ok,
    ensures
        parse_all_spec(send_order(export_spec(cmds)->Ok_0)) == Ok::<Seq<Seq<u8>>, ProtocolError>(
            body_group(cmds, 0) + body_group(cmds, 1) + body_group(cmds, 2),
        ),
{
    let es = export_spec(cmds)->Ok_0;
    lemma_export_groups(cmds, 0);
    lemma_export_groups(cmds, 1);
    lemma_export_groups(cmds, 2);
    let all = body_group(cmds, 0) + body_group(cmds, 1) + body_group(cmds, 2);
    lemma_map_concat(body_group(cmds, 0), body_group(cmds, 1));
    lemma_map_concat(body_group(cmds, 0) + body_group(cmds, 1), body_group(cmds, 2));
    lemma_parse_all_hex(all);
}

/// Law: a settings document without a version (as older tools write them)
/// is read as version 0 and upgraded to the current format, as long as it
/// is an object with a `commands` array; a missing name is filled in.
pub proof fn law_unversioned_migrates(shape: SettingsShape)
    requires
        shape.is_object,
        shape.version is None,
        shape.has_commands_array,
    ensures
        migration_spec(shape) == Ok::<(u32, bool), ProtocolError>((SETTINGS_FORMAT_VERSION, !shape.has_name)),
{
}

} // verus!
