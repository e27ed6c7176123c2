//! Laws of the decoder, stated over the layout and the contracts of `parse`,
//! `decode` and `to_bytes`.
use vstd::prelude::*;

use crate::bytes::{le16, lemma_le16_bytes, lemma_le32_bytes};
use crate::decode::{
    decoded_from, dev_addr_of, f_opts_bytes, failed_passes, frm_bytes, has_f_port, mac_pass_ok,
};
use crate::encode::encoding;
use crate::frame::{
    body, f_opts_len, frame_matches, is_data, layout_error, mtype_of, FOpts, FrameStep,
    FrmPayload, ParseError, Payload, PhyPayload,
};
use crate::keystore::key_for;

verus! {

/// Every 23-byte buffer whose header announces a join-request of the supported
/// version is well formed, and the frame it decodes to holds its join-EUI,
/// device-EUI and device nonce exactly as they stand in the buffer.
pub proof fn lemma_join_request_recovered(b: Seq<u8>, f: PhyPayload)
    requires
        b.len() == 23,
        b[0] % 4 == 0,
        mtype_of(b[0]) is JoinRequest,
        frame_matches(f, b),
    ensures
        layout_error(b) is None,
        f.payload matches Payload::JoinRequest(p) && p.join_eui@ == b.subrange(1, 9)
            && p.dev_eui@ == b.subrange(9, 17) && p.dev_nonce == le16(b[17], b[18]),
{
}

/// Writing back a frame decoded from a well-formed buffer, with neither pass run,
/// gives that buffer again, so parsing it again yields the same fields.
pub proof fn lemma_round_trip(b: Seq<u8>, f: PhyPayload)
    requires
        layout_error(b) is None,
        frame_matches(f, b),
    ensures
        encoding(f) == Some(b),
{
    let n = b.len() as int;
    let t = mtype_of(b[0]);
    if t is JoinRequest {
        lemma_le16_bytes(b[17], b[18]);
        assert(encoding(f)->Some_0 =~= b);
    } else if t is JoinAccept {
        lemma_le32_bytes(b[7], b[8], b[9], b[10]);
        assert(encoding(f)->Some_0 =~= b);
    } else if is_data(t) {
        lemma_le32_bytes(b[1], b[2], b[3], b[4]);
        lemma_le16_bytes(b[6], b[7]);
        assert(encoding(f)->Some_0 =~= b);
    } else {
        assert(encoding(f)->Some_0 =~= b);
    }
}

/// With neither pass asked for, `decode` yields the frame that the layout gives,
/// and writing that frame back gives the buffer again.
pub proof fn lemma_plain_decode_round_trip(
    b: Seq<u8>,
    f: PhyPayload,
    keys: Seq<(u32, [u8; 16])>,
)
    requires
        layout_error(b) is None,
        decoded_from(f, b, false, false, keys),
    ensures
        frame_matches(f, b),
        encoding(f) == Some(b),
{
    lemma_round_trip(b, f);
}

/// Cutting one or more bytes off the end of a well-formed join-request, of a
/// join-accept without CFList, or of a data message without FPort gives a buffer
/// with a structural error. (A join-accept with CFList, a data message with FPort,
/// a rejoin-request or a proprietary frame can lose bytes and stay well formed.)
pub proof fn lemma_truncation_fails(b: Seq<u8>, k: int)
    requires
        layout_error(b) is None,
        1 <= k <= b.len(),
        mtype_of(b[0]) is JoinRequest || (mtype_of(b[0]) is JoinAccept && b.len() == 17) || (
        is_data(mtype_of(b[0])) && !has_f_port(b)),
    ensures
        layout_error(b.subrange(0, b.len() - k)) is Some,
{
    let c = b.subrange(0, b.len() - k);
    if c.len() >= 5 {
        assert(c[0] == b[0]);
        if c.len() >= 12 {
            assert(c[5] == b[5]);
        }
    }
}

/// A data message whose frame-control byte announces more FOpts bytes than stand
/// before the MIC is refused as malformed frame options.
pub proof fn lemma_f_opts_overrun(b: Seq<u8>)
    requires
        b.len() >= 12,
        b[0] % 4 == 0,
        is_data(mtype_of(b[0])),
        body(b).len() < 7 + f_opts_len(b[5]),
    ensures
        layout_error(b) == Some(ParseError::MalformedFrame(FrameStep::FrameOptions)),
{
}

/// When the MAC-command pass is asked for and fails on a well-formed data message,
/// `decode` still returns the frame, its FOpts as the raw bytes of the buffer, and
/// reports the failure.
pub proof fn lemma_mac_pass_soft(
    b: Seq<u8>,
    f: PhyPayload,
    frm: bool,
    keys: Seq<(u32, [u8; 16])>,
)
    requires
        layout_error(b) is None,
        is_data(mtype_of(b[0])),
        !mac_pass_ok(b),
        decoded_from(f, b, true, frm, keys),
    ensures
        f.payload matches Payload::Mac(p) && p.f_opts matches FOpts::Raw(v) && v@ == f_opts_bytes(
            b,
        ),
        failed_passes(b, true, frm, keys) >= 1,
{
}

/// When the frame-payload pass is asked for on a well-formed data message with an
/// FPort and the keystore holds no key for its device address, `decode` still
/// returns the frame, its payload as the raw bytes of the buffer, and reports the
/// failure.
pub proof fn lemma_frm_pass_soft(
    b: Seq<u8>,
    f: PhyPayload,
    mac: bool,
    keys: Seq<(u32, [u8; 16])>,
)
    requires
        layout_error(b) is None,
        is_data(mtype_of(b[0])),
        has_f_port(b),
        key_for(keys, dev_addr_of(b)) is None,
        decoded_from(f, b, mac, true, keys),
    ensures
        f.payload matches Payload::Mac(p) && p.frm_payload matches Some(FrmPayload::Raw(v))
            && v@ == frm_bytes(b),
        failed_passes(b, mac, true, keys) >= 1,
{
}

} // verus!
