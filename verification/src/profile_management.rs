//! Rendering of wireless-profile documents.
//!
//! A profile document is written through the streaming XML writer. What is
//! proved here is which operations the writer receives, in which order, for
//! given profile parameters; the text that the writer makes of them is the
//! writer's own.

use vstd::prelude::*;
use vstd::string::*;
use vstd::utf8::encode_utf8;
use xmlwriter::XmlWriter;
use crate::wlan_enums::{EncryptionAlgorithm, NetworkSecurity};
use crate::xml::{
    document_text, end_document, end_element, in_start_tag, new_writer, open_depth,
    set_preserve_whitespaces, start_element, write_attribute, write_text, written, Indentation,
    Layout, XmlOp,
};

verus! {

/// The layout of every profile document: single quotes, four spaces per
/// level, attributes on the element's line.
pub open spec fn profile_layout() -> Layout {
    Layout { single_quote: true, nodes: Indentation::Spaces(4), attributes: Indentation::Flat }
}

/// The upper-case hexadecimal digit of a value below sixteen.
pub open spec fn hex_digit(nibble: int) -> char
    recommends
        0 <= nibble < 16,
{
    "0123456789ABCDEF"@[nibble]
}

/// The upper-case hexadecimal text of a byte sequence, two digits a byte.
pub open spec fn hex_text(bytes: Seq<u8>) -> Seq<char>
    decreases bytes.len(),
{
    if bytes.len() == 0 {
        Seq::empty()
    } else {
        hex_text(bytes.drop_last()) + seq![
            hex_digit(bytes.last() as int / 16),
            hex_digit(bytes.last() as int % 16),
        ]
    }
}

/// The operations that write one element whose only child is a text node,
/// with the text taken as it is: the whitespace flag is raised for the text
/// and lowered again after the element.
pub open spec fn text_element(name: Seq<char>, text: Seq<char>) -> Seq<XmlOp> {
    seq![
        XmlOp::Start(name),
        XmlOp::Preserve(true),
        XmlOp::Text(text),
        XmlOp::End,
        XmlOp::Preserve(false),
    ]
}

/// The operations that write the shared-key block for a passphrase.
pub open spec fn shared_key_block(password: Seq<char>) -> Seq<XmlOp> {
    seq![XmlOp::Start("sharedKey"@)] + text_element("keyType"@, "passPhrase"@) + text_element(
        "protected"@,
        "false"@,
    ) + text_element("keyMaterial"@, password) + seq![XmlOp::End]
}

/// The operations that write the profile document of a network: the root
/// with its namespace, the name, the SSID block with the SSID's UTF-8 bytes
/// in hexadecimal and the SSID as text, the fixed connection settings, the security block and, for
/// every security kind but `Open`, the shared-key block.
pub open spec fn profile_ops(
    ssid: Seq<char>,
    password: Seq<char>,
    encryption: EncryptionAlgorithm,
    security: NetworkSecurity,
) -> Seq<XmlOp> {
    seq![
        XmlOp::Create(profile_layout()),
        XmlOp::Start("WLANProfile"@),
        XmlOp::Attribute("xmlns"@, "http://www.microsoft.com/networking/WLAN/profile/v1"@),
    ] + text_element("name"@, ssid) + seq![
        XmlOp::Start("SSIDConfig"@),
        XmlOp::Start("SSID"@),
    ] + text_element("hex"@, hex_text(encode_utf8(ssid))) + text_element("name"@, ssid) + seq![XmlOp::End]
        + text_element("nonBroadcast"@, "false"@) + seq![XmlOp::End] + text_element(
        "connectionType"@,
        "ESS"@,
    ) + text_element("connectionMode"@, "manual"@) + text_element("autoSwitch"@, "false"@) + seq![
        XmlOp::Start("MSM"@),
        XmlOp::Start("security"@),
        XmlOp::Start("authEncryption"@),
    ] + text_element("authentication"@, security.name()) + text_element(
        "encryption"@,
        encryption.name(),
    ) + text_element("useOneX"@, "false"@) + seq![XmlOp::End] + (if security is Open {
        Seq::empty()
    } else {
        shared_key_block(password)
    }) + seq![XmlOp::End, XmlOp::End]
}

/// One upper-case hexadecimal digit as text.
fn hex_digit_text(nibble: u8) -> (text: &'static str)
    requires
        nibble < 16,
    ensures
        text@ == seq![hex_digit(nibble as int)],
{
    proof {
        reveal_strlit("0123456789ABCDEF");
        reveal_strlit("0");
        reveal_strlit("1");
        reveal_strlit("2");
        reveal_strlit("3");
        reveal_strlit("4");
        reveal_strlit("5");
        reveal_strlit("6");
        reveal_strlit("7");
        reveal_strlit("8");
        reveal_strlit("9");
        reveal_strlit("A");
        reveal_strlit("B");
        reveal_strlit("C");
        reveal_strlit("D");
        reveal_strlit("E");
        reveal_strlit("F");
    }
    let text = match nibble {
        0 => "0",
        1 => "1",
        2 => "2",
        3 => "3",
        4 => "4",
        5 => "5",
        6 => "6",
        7 => "7",
        8 => "8",
        9 => "9",
        10 => "A",
        11 => "B",
        12 => "C",
        13 => "D",
        14 => "E",
        _ => "F",
    };
    assert(text@ =~= seq![hex_digit(nibble as int)]);
    text
}

/// Writes bytes as upper-case hexadecimal text, two digits a byte.
pub fn hex_encode(bytes: &[u8]) -> (text: String)
    ensures
        text@ == hex_text(bytes@),
{
    let mut text = String::new();
    let mut i: usize = 0;
    while i < bytes.len()
        invariant
            i <= bytes.len(),
            text@ == hex_text(bytes@.subrange(0, i as int)),
        decreases bytes.len() - i,
    {
        let byte = bytes[i];
        text.append(hex_digit_text(byte / 16));
        text.append(hex_digit_text(byte % 16));
        proof {
            let next = bytes@.subrange(0, i + 1);
            assert(next.drop_last() =~= bytes@.subrange(0, i as int));
            assert(next.last() == byte);
            assert(text@ =~= hex_text(next));
        }
        i += 1;
    }
    assert(bytes@.subrange(0, i as int) =~= bytes@);
    text
}

/// The number of open elements after one more operation.
proof fn lemma_depth_push(ops: Seq<XmlOp>, op: XmlOp)
    ensures
        op is Start ==> open_depth(ops.push(op)) == open_depth(ops) + 1,
        op is End && open_depth(ops) > 0 ==> open_depth(ops.push(op)) == open_depth(ops) - 1,
        op is End && open_depth(ops) == 0 ==> open_depth(ops.push(op)) == 0,
        !(op is Start) && !(op is End) ==> open_depth(ops.push(op)) == open_depth(ops),
{
    assert(ops.push(op).drop_last() =~= ops);
}

/// Writing a text element leaves as many elements open as before.
proof fn lemma_text_element_depth(before: Seq<XmlOp>, name: Seq<char>, text: Seq<char>)
    ensures
        open_depth(before + text_element(name, text)) == open_depth(before),
{
    let s1 = before.push(XmlOp::Start(name));
    let s2 = s1.push(XmlOp::Preserve(true));
    let s3 = s2.push(XmlOp::Text(text));
    let s4 = s3.push(XmlOp::End);
    let s5 = s4.push(XmlOp::Preserve(false));
    lemma_depth_push(before, XmlOp::Start(name));
    lemma_depth_push(s1, XmlOp::Preserve(true));
    lemma_depth_push(s2, XmlOp::Text(text));
    lemma_depth_push(s3, XmlOp::End);
    lemma_depth_push(s4, XmlOp::Preserve(false));
    assert(s5 =~= before + text_element(name, text));
}

/// Writes one element whose only child is `text`, taken as it is.
fn write_element_preserve_white_spaces(writer: &mut XmlWriter, element_name: &str, text: &str)
    ensures
        written(*final(writer)) == written(*old(writer)) + text_element(element_name@, text@),
        open_depth(written(*final(writer))) == open_depth(written(*old(writer))),
{
    let ghost before = written(*writer);
    start_element(writer, element_name);
    set_preserve_whitespaces(writer, true);
    proof {
        let started = before.push(XmlOp::Start(element_name@));
        lemma_depth_push(before, XmlOp::Start(element_name@));
        lemma_depth_push(started, XmlOp::Preserve(true));
    }
    write_text(writer, text);
    end_element(writer);
    set_preserve_whitespaces(writer, false);
    proof {
        lemma_text_element_depth(before, element_name@, text@);
        assert(written(*writer) =~= before + text_element(element_name@, text@));
    }
}

/// Writes the shared-key block for a passphrase.
fn write_shared_key_element(writer: &mut XmlWriter, password: &str)
    ensures
        written(*final(writer)) == written(*old(writer)) + shared_key_block(password@),
        open_depth(written(*final(writer))) == open_depth(written(*old(writer))),
{
    let ghost before = written(*writer);
    start_element(writer, "sharedKey");
    proof {
        lemma_depth_push(before, XmlOp::Start("sharedKey"@));
    }
    write_element_preserve_white_spaces(writer, "keyType", "passPhrase");
    write_element_preserve_white_spaces(writer, "protected", "false");
    write_element_preserve_white_spaces(writer, "keyMaterial", password);
    let ghost inner = written(*writer);
    end_element(writer);
    proof {
        lemma_depth_push(inner, XmlOp::End);
        assert(written(*writer) =~= before + shared_key_block(password@));
    }
}

/// Renders the profile document of a network. The passphrase is written
/// only where the security kind is not `Open`.
pub fn generate_network_profile_xml(
    ssid: &str,
    password: &str,
    encryption: &EncryptionAlgorithm,
    security: &NetworkSecurity,
) -> (xml: String)
    ensures
        xml@ == document_text(profile_ops(ssid@, password@, *encryption, *security)),
{
    let layout = Layout {
        single_quote: true,
        nodes: Indentation::Spaces(4),
        attributes: Indentation::Flat,
    };
    let mut writer = new_writer(layout);
    let encryption_string = encryption.convert_to_string();
    let security_string = security.convert_to_string();
    let ssid_hex = hex_encode(ssid.as_bytes());
    let is_open = match security {
        NetworkSecurity::Open => true,
        _ => false,
    };

    start_element(&mut writer, "WLANProfile");
    assert(in_start_tag(written(writer))) by {
        assert(written(writer).last() is Start);
    }
    write_attribute(
        &mut writer,
        "xmlns",
        "http://www.microsoft.com/networking/WLAN/profile/v1",
    );
    write_element_preserve_white_spaces(&mut writer, "name", ssid);
    start_element(&mut writer, "SSIDConfig");
    start_element(&mut writer, "SSID");
    write_element_preserve_white_spaces(&mut writer, "hex", ssid_hex.as_str());
    write_element_preserve_white_spaces(&mut writer, "name", ssid);
    end_element(&mut writer);
    write_element_preserve_white_spaces(&mut writer, "nonBroadcast", "false");
    end_element(&mut writer);
    write_element_preserve_white_spaces(&mut writer, "connectionType", "ESS");
    write_element_preserve_white_spaces(&mut writer, "connectionMode", "manual");
    write_element_preserve_white_spaces(&mut writer, "autoSwitch", "false");
    start_element(&mut writer, "MSM");
    start_element(&mut writer, "security");
    start_element(&mut writer, "authEncryption");
    write_element_preserve_white_spaces(&mut writer, "authentication", security_string.as_str());
    write_element_preserve_white_spaces(&mut writer, "encryption", encryption_string.as_str());
    write_element_preserve_white_spaces(&mut writer, "useOneX", "false");
    end_element(&mut writer);
    if !is_open {
        write_shared_key_element(&mut writer, password);
    }
    end_element(&mut writer);
    end_element(&mut writer);
    assert(written(writer) =~= profile_ops(ssid@, password@, *encryption, *security));
    end_document(writer)
}

/// Whether `ops` starts an element named `name` somewhere.
pub open spec fn starts_element(ops: Seq<XmlOp>, name: Seq<char>) -> bool {
    ops.contains(XmlOp::Start(name))
}

/// Whether `block` stands in `ops` as one unbroken run.
pub open spec fn has_block(ops: Seq<XmlOp>, block: Seq<XmlOp>) -> bool {
    exists|at: int|
        0 <= at && at + block.len() <= ops.len() && #[trigger] ops.subrange(
            at,
            at + block.len(),
        ) == block
}

/// An element is started in a concatenation exactly when one of the two
/// parts starts it.
proof fn lemma_starts_concat(a: Seq<XmlOp>, b: Seq<XmlOp>, name: Seq<char>)
    ensures
        starts_element(a + b, name) <==> starts_element(a, name) || starts_element(b, name),
{
    let x = XmlOp::Start(name);
    if a.contains(x) {
        let i = choose|i: int| 0 <= i < a.len() && a[i] == x;
        assert((a + b)[i] == x);
    }
    if b.contains(x) {
        let i = choose|i: int| 0 <= i < b.len() && b[i] == x;
        assert((a + b)[a.len() + i] == x);
    }
    if (a + b).contains(x) {
        let i = choose|i: int| 0 <= i < (a + b).len() && (a + b)[i] == x;
        if i < a.len() {
            assert(a[i] == x);
        } else {
            assert(b[i - a.len()] == x);
        }
    }
}

/// A text element starts its own element and no other.
proof fn lemma_starts_text_element(element: Seq<char>, text: Seq<char>, name: Seq<char>)
    ensures
        starts_element(text_element(element, text), name) <==> element == name,
{
    let ops = text_element(element, text);
    if element == name {
        assert(ops[0] == XmlOp::Start(name));
    }
}

/// A run of operations that is known element by element starts `name` only
/// where one of its elements does.
proof fn lemma_starts_none(ops: Seq<XmlOp>, name: Seq<char>)
    requires
        forall|i: int| 0 <= i < ops.len() ==> ops[i] != XmlOp::Start(name),
    ensures
        !starts_element(ops, name),
{
}

/// The profile document of an open network has no shared-key element; that
/// of any other network holds the whole shared-key block, with the
/// passphrase as its key material.
pub proof fn lemma_shared_key_block_iff_secured(
    ssid: Seq<char>,
    password: Seq<char>,
    encryption: EncryptionAlgorithm,
    security: NetworkSecurity,
)
    ensures
        security is Open ==> !starts_element(
            profile_ops(ssid, password, encryption, security),
            "sharedKey"@,
        ),
        !(security is Open) ==> has_block(
            profile_ops(ssid, password, encryption, security),
            shared_key_block(password),
        ),
        !(security is Open) ==> starts_element(
            profile_ops(ssid, password, encryption, security),
            "sharedKey"@,
        ),
{
    reveal_strlit("sharedKey");
    reveal_strlit("WLANProfile");
    reveal_strlit("name");
    reveal_strlit("SSIDConfig");
    reveal_strlit("SSID");
    reveal_strlit("hex");
    reveal_strlit("nonBroadcast");
    reveal_strlit("connectionType");
    reveal_strlit("connectionMode");
    reveal_strlit("autoSwitch");
    reveal_strlit("MSM");
    reveal_strlit("security");
    reveal_strlit("authEncryption");
    reveal_strlit("authentication");
    reveal_strlit("encryption");
    reveal_strlit("useOneX");
    let key = "sharedKey"@;
    assert(key.len() == 9);
    assert("WLANProfile"@.len() == 11);
    assert("name"@.len() == 4);
    assert("SSIDConfig"@.len() == 10);
    assert("SSID"@.len() == 4);
    assert("hex"@.len() == 3);
    assert("nonBroadcast"@.len() == 12);
    assert("connectionType"@.len() == 14);
    assert("connectionMode"@.len() == 14);
    assert("autoSwitch"@.len() == 10);
    assert("MSM"@.len() == 3);
    assert("security"@.len() == 8);
    assert("authEncryption"@.len() == 14);
    assert("authentication"@.len() == 14);
    assert("encryption"@.len() == 10);
    assert("useOneX"@.len() == 7);
    let hex = hex_text(encode_utf8(ssid));
    let run1 = seq![
        XmlOp::Create(profile_layout()),
        XmlOp::Start("WLANProfile"@),
        XmlOp::Attribute("xmlns"@, "http://www.microsoft.com/networking/WLAN/profile/v1"@),
    ];
    let run2 = run1 + text_element("name"@, ssid);
    let run3 = run2 + seq![XmlOp::Start("SSIDConfig"@), XmlOp::Start("SSID"@)];
    let run4 = run3 + text_element("hex"@, hex);
    let run5 = run4 + text_element("name"@, ssid);
    let run6 = run5 + seq![XmlOp::End];
    let run7 = run6 + text_element("nonBroadcast"@, "false"@);
    let run8 = run7 + seq![XmlOp::End];
    let run9 = run8 + text_element("connectionType"@, "ESS"@);
    let run10 = run9 + text_element("connectionMode"@, "manual"@);
    let run11 = run10 + text_element("autoSwitch"@, "false"@);
    let run12 = run11 + seq![
        XmlOp::Start("MSM"@),
        XmlOp::Start("security"@),
        XmlOp::Start("authEncryption"@),
    ];
    let run13 = run12 + text_element("authentication"@, security.name());
    let run14 = run13 + text_element("encryption"@, encryption.name());
    let run15 = run14 + text_element("useOneX"@, "false"@);
    let run16 = run15 + seq![XmlOp::End];
    let block = if security is Open {
        Seq::<XmlOp>::empty()
    } else {
        shared_key_block(password)
    };
    let run17 = run16 + block;
    let closing = seq![XmlOp::End, XmlOp::End];
    let all = run17 + closing;
    assert(all == profile_ops(ssid, password, encryption, security));

    let opening = seq![XmlOp::Start("SSIDConfig"@), XmlOp::Start("SSID"@)];
    let msm = seq![
        XmlOp::Start("MSM"@),
        XmlOp::Start("security"@),
        XmlOp::Start("authEncryption"@),
    ];
    let end = seq![XmlOp::End];
    lemma_starts_none(run1, key);
    lemma_starts_none(opening, key);
    lemma_starts_none(msm, key);
    lemma_starts_none(end, key);
    lemma_starts_none(closing, key);
    lemma_starts_text_element("name"@, ssid, key);
    lemma_starts_concat(run1, text_element("name"@, ssid), key);
    lemma_starts_concat(run2, seq![XmlOp::Start("SSIDConfig"@), XmlOp::Start("SSID"@)], key);
    lemma_starts_text_element("hex"@, hex, key);
    lemma_starts_concat(run3, text_element("hex"@, hex), key);
    lemma_starts_concat(run4, text_element("name"@, ssid), key);
    lemma_starts_concat(run5, seq![XmlOp::End], key);
    lemma_starts_text_element("nonBroadcast"@, "false"@, key);
    lemma_starts_concat(run6, text_element("nonBroadcast"@, "false"@), key);
    lemma_starts_concat(run7, seq![XmlOp::End], key);
    lemma_starts_text_element("connectionType"@, "ESS"@, key);
    lemma_starts_concat(run8, text_element("connectionType"@, "ESS"@), key);
    lemma_starts_text_element("connectionMode"@, "manual"@, key);
    lemma_starts_concat(run9, text_element("connectionMode"@, "manual"@), key);
    lemma_starts_text_element("autoSwitch"@, "false"@, key);
    lemma_starts_concat(run10, text_element("autoSwitch"@, "false"@), key);
    lemma_starts_concat(
        run11,
        seq![XmlOp::Start("MSM"@), XmlOp::Start("security"@), XmlOp::Start("authEncryption"@)],
        key,
    );
    lemma_starts_text_element("authentication"@, security.name(), key);
    lemma_starts_concat(run12, text_element("authentication"@, security.name()), key);
    lemma_starts_text_element("encryption"@, encryption.name(), key);
    lemma_starts_concat(run13, text_element("encryption"@, encryption.name()), key);
    lemma_starts_text_element("useOneX"@, "false"@, key);
    lemma_starts_concat(run14, text_element("useOneX"@, "false"@), key);
    lemma_starts_concat(run15, seq![XmlOp::End], key);
    lemma_starts_concat(run16, block, key);
    lemma_starts_concat(run17, closing, key);
    if security is Open {
        lemma_starts_none(block, key);
    } else {
        assert(block[0] == XmlOp::Start(key));
        assert(starts_element(block, key));
        let at = run16.len() as int;
        assert(all.subrange(at, at + block.len()) =~= block);
    }
}

} // verus!
