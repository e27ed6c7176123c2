//! The entry point: the layout parse, then each requested pass, whose failures
//! are reported beside the frame instead of failing the call.
use vstd::prelude::*;

use crate::bytes::{le16, le32};
use crate::frame::{
    f_opts_len, frame_matches, is_data, is_uplink, layout_error, mtype_of, FOpts, FrmPayload,
    MacPayload, ParseError, Payload, PhyPayload,
};
use crate::keystore::{key_for, KeyStore};
use crate::passes::{
    decoded_as, frm_cipher, holds_plaintext, mac_accepted, mac_decode, mac_error, DecodeError,
};

verus! {

/// Where the frame options of a data message end.
pub open spec fn f_opts_end(b: Seq<u8>) -> int {
    8 + f_opts_len(b[5])
}

/// A data message carries an FPort when bytes remain between its options and its MIC.
pub open spec fn has_f_port(b: Seq<u8>) -> bool {
    f_opts_end(b) < b.len() - 4
}

pub open spec fn f_opts_bytes(b: Seq<u8>) -> Seq<u8> {
    b.subrange(8, f_opts_end(b))
}

pub open spec fn frm_bytes(b: Seq<u8>) -> Seq<u8> {
    b.subrange(f_opts_end(b) + 1, b.len() - 4)
}

pub open spec fn dev_addr_of(b: Seq<u8>) -> u32 {
    le32(b[1], b[2], b[3], b[4])
}

/// The MAC-command pass succeeds on a well-formed buffer.
pub open spec fn mac_pass_ok(b: Seq<u8>) -> bool {
    is_data(mtype_of(b[0])) && mac_accepted(f_opts_bytes(b), is_uplink(mtype_of(b[0])))
}

/// The frame-payload pass succeeds on a well-formed buffer.
pub open spec fn frm_pass_ok(b: Seq<u8>, keys: Seq<(u32, [u8; 16])>) -> bool {
    is_data(mtype_of(b[0])) && has_f_port(b) && key_for(keys, dev_addr_of(b)) is Some
}

/// The plaintext that the frame-payload pass yields.
pub open spec fn plaintext_of(b: Seq<u8>, keys: Seq<(u32, [u8; 16])>) -> Seq<u8> {
    frm_cipher(
        key_for(keys, dev_addr_of(b))->Some_0@,
        is_uplink(mtype_of(b[0])),
        dev_addr_of(b),
        le16(b[6], b[7]) as u32,
        frm_bytes(b),
    )
}

/// The MAC payload that `decode` yields for a well-formed data message.
pub open spec fn decoded_mac_payload(
    p: MacPayload,
    b: Seq<u8>,
    mac: bool,
    frm: bool,
    keys: Seq<(u32, [u8; 16])>,
) -> bool {
    &&& p.dev_addr == dev_addr_of(b)
    &&& p.f_ctrl == b[5]
    &&& p.f_cnt == le16(b[6], b[7])
    &&& p.f_port == if has_f_port(b) {
        Some(b[f_opts_end(b)])
    } else {
        None
    }
    &&& if mac && mac_pass_ok(b) {
        decoded_as(p.f_opts, mac_decode(f_opts_bytes(b), is_uplink(mtype_of(b[0])))->Some_0)
    } else {
        p.f_opts matches FOpts::Raw(v) && v@ == f_opts_bytes(b)
    }
    &&& if !has_f_port(b) {
        p.frm_payload is None
    } else if frm && frm_pass_ok(b, keys) {
        holds_plaintext(p.frm_payload, plaintext_of(b, keys)) && plaintext_of(b, keys).len()
            == frm_bytes(b).len()
    } else {
        p.frm_payload matches Some(FrmPayload::Raw(v)) && v@ == frm_bytes(b)
    }
}

/// The frame that `decode` yields for a well-formed buffer.
pub open spec fn decoded_from(
    f: PhyPayload,
    b: Seq<u8>,
    mac: bool,
    frm: bool,
    keys: Seq<(u32, [u8; 16])>,
) -> bool {
    if is_data(mtype_of(b[0])) {
        &&& f.mhdr == b[0]
        &&& f.mic@ == b.subrange(b.len() - 4, b.len() as int)
        &&& f.payload matches Payload::Mac(p) && decoded_mac_payload(p, b, mac, frm, keys)
    } else {
        frame_matches(f, b)
    }
}

/// How many of the requested passes fail on a well-formed buffer.
pub open spec fn failed_passes(b: Seq<u8>, mac: bool, frm: bool, keys: Seq<(u32, [u8; 16])>) -> int {
    (if mac && !mac_pass_ok(b) {
        1int
    } else {
        0int
    }) + (if frm && !frm_pass_ok(b, keys) {
        1int
    } else {
        0int
    })
}

/// The diagnostic that the MAC-command pass reports on a well-formed buffer that it
/// does not accept.
pub open spec fn mac_diagnostic(e: DecodeError, b: Seq<u8>) -> bool {
    if is_data(mtype_of(b[0])) {
        mac_error(e, f_opts_bytes(b), is_uplink(mtype_of(b[0])))
    } else {
        e is NotDataMessage
    }
}

/// The diagnostic that the frame-payload pass reports on a well-formed buffer on
/// which it fails.
pub open spec fn frm_diagnostic(e: DecodeError, b: Seq<u8>) -> bool {
    if !is_data(mtype_of(b[0])) {
        e is NotDataMessage
    } else if !has_f_port(b) {
        e is MissingFPort
    } else {
        e is KeyUnavailable
    }
}

/// A decoded frame, with one diagnostic for each requested pass that failed.
pub struct Decoded {
    pub frame: PhyPayload,
    pub diagnostics: Vec<DecodeError>,
}

/// Parses `b`; then, where asked, decodes the MAC commands in the frame options and
/// decrypts the frame payload. Only a structural error fails the call.
pub fn decode(b: &[u8], decode_mac_commands: bool, decode_frm_payload: bool, keys: &KeyStore) -> (r:
    Result<Decoded, ParseError>)
    ensures
        match r {
            Ok(d) => {
                &&& layout_error(b@) is None
                &&& decoded_from(d.frame, b@, decode_mac_commands, decode_frm_payload, keys@)
                &&& d.diagnostics@.len() == failed_passes(
                    b@,
                    decode_mac_commands,
                    decode_frm_payload,
                    keys@,
                )
                &&& decode_mac_commands && !mac_pass_ok(b@) ==> mac_diagnostic(
                    d.diagnostics@[0],
                    b@,
                )
                &&& decode_frm_payload && !frm_pass_ok(b@, keys@) ==> frm_diagnostic(
                    d.diagnostics@.last(),
                    b@,
                )
            },
            Err(e) => layout_error(b@) == Some(e),
        },
{
    let mut frame = match PhyPayload::parse(b) {
        Ok(f) => f,
        Err(e) => {
            return Err(e);
        },
    };
    let mut diagnostics: Vec<DecodeError> = Vec::new();
    if decode_mac_commands {
        match frame.decode_mac_commands() {
            Ok(()) => {},
            Err(e) => {
                diagnostics.push(e);
            },
        }
    }
    if decode_frm_payload {
        match frame.decode_frm_payload(keys) {
            Ok(()) => {},
            Err(e) => {
                diagnostics.push(e);
            },
        }
    }
    Ok(Decoded { frame, diagnostics })
}

} // verus!
