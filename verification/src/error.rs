use vstd::prelude::*;

use crate::text::{decimal_spec, hex_upper_spec, push_decimal, push_hex_upper, push_str};

verus! {

/// Errors of the headset protocol layer.
#[derive(Debug, Clone, PartialEq, Eq)]
pub enum ProtocolError {
    /// A hex string has an odd number of digits.
    OddHexLength,
    /// A hex string holds a character that is not a hex digit.
    InvalidHex,
    /// The profile key names no built-in profile.
    UnknownProfile,
    /// A frame body is longer than 255 bytes.
    PayloadTooLong,
    /// A device name exceeds the profile's limit (the limit is carried).
    NameTooLong(usize),
    /// The ambient volume lies outside -3..=3.
    AmbientVolumeRange,
    /// A received frame starts with an unexpected head byte.
    UnexpectedHead(u8),
    /// A frame's checksum does not match.
    Checksum { expected: u16, actual: u16 },
    /// A settings file is not a JSON object.
    SettingsNotObject,
    /// A settings file has no `commands` array.
    SettingsMissingCommands,
    /// A settings file has a newer, unsupported version.
    SettingsVersion(u32),
    /// JSON could not be parsed or produced.
    Json(String),
}

/// The message of an error, as the user sees it.
pub open spec fn protocol_message(e: ProtocolError) -> Seq<char> {
    match e {
        ProtocolError::OddHexLength => "hex 长度必须是偶数"@,
        ProtocolError::InvalidHex => "非法 hex 字符"@,
        ProtocolError::UnknownProfile => "未知机型档案"@,
        ProtocolError::PayloadTooLong => "载荷超过 255 字节"@,
        ProtocolError::NameTooLong(n) => "名称超过机型上限 "@ + decimal_spec(n as nat) + " 字节"@,
        ProtocolError::AmbientVolumeRange => "环境声音量超出 -3..=3"@,
        ProtocolError::UnexpectedHead(h) => "意外的帧头 0x"@ + hex_upper_spec(seq![h]),
        ProtocolError::Checksum { expected, actual } => "校验和错误: 期望 "@ + hex_upper_spec(
            seq![(expected / 256) as u8, (expected % 256) as u8],
        ) + ", 实际 "@ + hex_upper_spec(seq![(actual / 256) as u8, (actual % 256) as u8]),
        ProtocolError::SettingsNotObject => "设置文件不是 JSON 对象"@,
        ProtocolError::SettingsMissingCommands => "设置文件缺少 commands 数组"@,
        ProtocolError::SettingsVersion(v) => "不支持的设置文件版本 "@ + decimal_spec(v as nat),
        ProtocolError::Json(s) => "JSON 解析失败: "@ + s@,
    }
}

proof fn lemma_hex_one(b: u8)
    ensures
        hex_upper_spec(seq![b]) == Seq::<char>::empty() + seq![
            crate::text::nibble_upper(b / 16),
            crate::text::nibble_upper(b % 16),
        ],
{
    assert(seq![b].drop_last() =~= Seq::<u8>::empty());
    assert(hex_upper_spec(Seq::<u8>::empty()) =~= Seq::<char>::empty());
    assert(seq![b].last() == b);
}

proof fn lemma_hex_two(a: u8, b: u8)
    ensures
        hex_upper_spec(seq![a, b]) == hex_upper_spec(seq![a]) + seq![
            crate::text::nibble_upper(b / 16),
            crate::text::nibble_upper(b % 16),
        ],
{
    assert(seq![a, b].drop_last() =~= seq![a]);
}

impl ProtocolError {
    /// The message of the error, as the user sees it.
    pub fn message(&self) -> (s: String)
        ensures
            s@ == protocol_message(*self),
    {
        let mut s = String::new();
        match self {
            ProtocolError::OddHexLength => push_str(&mut s, "hex 长度必须是偶数"),
            ProtocolError::InvalidHex => push_str(&mut s, "非法 hex 字符"),
            ProtocolError::UnknownProfile => push_str(&mut s, "未知机型档案"),
            ProtocolError::PayloadTooLong => push_str(&mut s, "载荷超过 255 字节"),
            ProtocolError::NameTooLong(n) => {
                push_str(&mut s, "名称超过机型上限 ");
                push_decimal(&mut s, *n as u64);
                push_str(&mut s, " 字节");
            },
            ProtocolError::AmbientVolumeRange => push_str(&mut s, "环境声音量超出 -3..=3"),
            ProtocolError::UnexpectedHead(h) => {
                push_str(&mut s, "意外的帧头 0x");
                push_hex_upper(&mut s, *h);
                proof {
                    lemma_hex_one(*h);
                }
            },
            ProtocolError::Checksum { expected, actual } => {
                push_str(&mut s, "校验和错误: 期望 ");
                let e_hi = (*expected / 256) as u8;
                let e_lo = (*expected % 256) as u8;
                push_hex_upper(&mut s, e_hi);
                push_hex_upper(&mut s, e_lo);
                push_str(&mut s, ", 实际 ");
                let a_hi = (*actual / 256) as u8;
                let a_lo = (*actual % 256) as u8;
                push_hex_upper(&mut s, a_hi);
                push_hex_upper(&mut s, a_lo);
                proof {
                    lemma_hex_one(e_hi);
                    lemma_hex_two(e_hi, e_lo);
                    lemma_hex_one(a_hi);
                    lemma_hex_two(a_hi, a_lo);
                }
            },
            ProtocolError::SettingsNotObject => push_str(&mut s, "设置文件不是 JSON 对象"),
            ProtocolError::SettingsMissingCommands => push_str(&mut s, "设置文件缺少 commands 数组"),
            ProtocolError::SettingsVersion(v) => {
                push_str(&mut s, "不支持的设置文件版本 ");
                push_decimal(&mut s, *v as u64);
            },
            ProtocolError::Json(m) => {
                push_str(&mut s, "JSON 解析失败: ");
                push_str(&mut s, m.as_str());
            },
        }
        assert(s@ =~= protocol_message(*self));
        s
    }
}

} // verus!
