//! The PHY payload: its data model, its byte layout, and the parser.
use vstd::prelude::*;

use crate::bytes::{copy_range, le16, le32, read_le16, read_le32};

verus! {

/// The set of decoded MAC commands, as lrwn represents it.
#[verifier::external_type_specification]
#[verifier::external_body]
pub struct ExMacCommandSet(lrwn::MACCommandSet);

/// One MAC command, as lrwn represents it.
#[verifier::external_type_specification]
#[verifier::external_body]
pub struct ExMacCommand(lrwn::MACCommand);

/// The message type carried in the top three bits of the header byte.
#[derive(Clone, Copy, Debug, PartialEq, Eq, Structural)]
pub enum MType {
    JoinRequest,
    JoinAccept,
    UnconfirmedDataUp,
    UnconfirmedDataDown,
    ConfirmedDataUp,
    ConfirmedDataDown,
    RejoinRequest,
    Proprietary,
}

/// Which step of the exact byte accounting failed.
#[derive(Clone, Copy, Debug, PartialEq, Eq, Structural)]
pub enum FrameStep {
    JoinRequestBody,
    FrameHeader,
    FrameOptions,
}

/// A structural error: the buffer is not a LoRaWAN PHY payload.
#[derive(Clone, Copy, Debug, PartialEq, Eq, Structural)]
pub enum ParseError {
    TruncatedInput,
    UnsupportedVersion,
    MalformedFrame(FrameStep),
    MalformedJoinAccept,
}

/// The frame options: raw bytes, or the MAC commands decoded from them.
pub enum FOpts {
    Raw(Vec<u8>),
    Decoded(lrwn::MACCommandSet),
}

/// The frame payload: as received, or decrypted.
pub enum FrmPayload {
    Raw(Vec<u8>),
    Decrypted(Vec<u8>),
}

pub struct JoinRequestPayload {
    pub join_eui: Vec<u8>,
    pub dev_eui: Vec<u8>,
    pub dev_nonce: u16,
}

pub struct JoinAcceptPayload {
    pub join_nonce: Vec<u8>,
    pub home_net_id: Vec<u8>,
    pub dev_addr: u32,
    pub dl_settings: u8,
    pub rx_delay: u8,
    pub cf_list: Option<Vec<u8>>,
}

pub struct MacPayload {
    pub dev_addr: u32,
    pub f_ctrl: u8,
    pub f_cnt: u16,
    pub f_opts: FOpts,
    pub f_port: Option<u8>,
    pub frm_payload: Option<FrmPayload>,
}

/// The body between the header byte and the MIC.
pub enum Payload {
    JoinRequest(JoinRequestPayload),
    JoinAccept(JoinAcceptPayload),
    Mac(MacPayload),
    /// Rejoin-request and proprietary bodies, kept as they are.
    Opaque(Vec<u8>),
}

pub struct PhyPayload {
    pub mhdr: u8,
    pub payload: Payload,
    pub mic: Vec<u8>,
}

/// The message type that a header byte selects.
pub open spec fn mtype_of(h: u8) -> MType {
    let t = h / 32;
    if t == 0 {
        MType::JoinRequest
    } else if t == 1 {
        MType::JoinAccept
    } else if t == 2 {
        MType::UnconfirmedDataUp
    } else if t == 3 {
        MType::UnconfirmedDataDown
    } else if t == 4 {
        MType::ConfirmedDataUp
    } else if t == 5 {
        MType::ConfirmedDataDown
    } else if t == 6 {
        MType::RejoinRequest
    } else {
        MType::Proprietary
    }
}

pub open spec fn is_data(t: MType) -> bool {
    t is UnconfirmedDataUp || t is UnconfirmedDataDown || t is ConfirmedDataUp
        || t is ConfirmedDataDown
}

pub open spec fn is_uplink(t: MType) -> bool {
    t is JoinRequest || t is UnconfirmedDataUp || t is ConfirmedDataUp || t is RejoinRequest
}

/// The bytes between the header byte and the MIC.
pub open spec fn body(b: Seq<u8>) -> Seq<u8> {
    b.subrange(1, b.len() - 4)
}

/// The FOpts length that a frame-control byte announces.
pub open spec fn f_opts_len(f_ctrl: u8) -> int {
    (f_ctrl % 16) as int
}

/// The structural error of a buffer, or `None` when it is a well-formed PHY payload.
pub open spec fn layout_error(b: Seq<u8>) -> Option<ParseError> {
    if b.len() < 5 {
        Some(ParseError::TruncatedInput)
    } else if b[0] % 4 != 0 {
        Some(ParseError::UnsupportedVersion)
    } else {
        let t = mtype_of(b[0]);
        let n = body(b).len();
        if t is JoinRequest && n != 18 {
            Some(ParseError::MalformedFrame(FrameStep::JoinRequestBody))
        } else if t is JoinAccept && n != 12 && n != 28 {
            Some(ParseError::MalformedJoinAccept)
        } else if is_data(t) && n < 7 {
            Some(ParseError::MalformedFrame(FrameStep::FrameHeader))
        } else if is_data(t) && n < 7 + f_opts_len(b[5]) {
            Some(ParseError::MalformedFrame(FrameStep::FrameOptions))
        } else {
            None
        }
    }
}

/// The MAC payload of a data message that `b` encodes, options and payload raw.
pub open spec fn mac_payload_matches(p: MacPayload, b: Seq<u8>) -> bool {
    let n = b.len() as int;
    let o = 8 + f_opts_len(b[5]);
    &&& p.dev_addr == le32(b[1], b[2], b[3], b[4])
    &&& p.f_ctrl == b[5]
    &&& p.f_cnt == le16(b[6], b[7])
    &&& p.f_opts matches FOpts::Raw(v) && v@ == b.subrange(8, o)
    &&& if o == n - 4 {
        p.f_port is None && p.frm_payload is None
    } else {
        &&& p.f_port == Some(b[o])
        &&& p.frm_payload matches Some(FrmPayload::Raw(v)) && v@ == b.subrange(o + 1, n - 4)
    }
}

/// The frame that a well-formed buffer decodes to, every field as received.
pub open spec fn frame_matches(f: PhyPayload, b: Seq<u8>) -> bool {
    let n = b.len() as int;
    let t = mtype_of(b[0]);
    &&& f.mhdr == b[0]
    &&& f.mic@ == b.subrange(n - 4, n)
    &&& if t is JoinRequest {
        f.payload matches Payload::JoinRequest(p) && p.join_eui@ == b.subrange(1, 9)
            && p.dev_eui@ == b.subrange(9, 17) && p.dev_nonce == le16(b[17], b[18])
    } else if t is JoinAccept {
        f.payload matches Payload::JoinAccept(p) && p.join_nonce@ == b.subrange(1, 4)
            && p.home_net_id@ == b.subrange(4, 7) && p.dev_addr == le32(b[7], b[8], b[9], b[10])
            && p.dl_settings == b[11] && p.rx_delay == b[12] && if n == 17 {
            p.cf_list is None
        } else {
            p.cf_list matches Some(c) && c@ == b.subrange(13, 29)
        }
    } else if is_data(t) {
        f.payload matches Payload::Mac(p) && mac_payload_matches(p, b)
    } else {
        f.payload matches Payload::Opaque(v) && v@ == body(b)
    }
}

/// Reads the message type out of a header byte.
pub fn mtype_from(h: u8) -> (r: MType)
    ensures
        r == mtype_of(h),
{
    let t: u8 = h / 32;
    if t == 0 {
        MType::JoinRequest
    } else if t == 1 {
        MType::JoinAccept
    } else if t == 2 {
        MType::UnconfirmedDataUp
    } else if t == 3 {
        MType::UnconfirmedDataDown
    } else if t == 4 {
        MType::ConfirmedDataUp
    } else if t == 5 {
        MType::ConfirmedDataDown
    } else if t == 6 {
        MType::RejoinRequest
    } else {
        MType::Proprietary
    }
}

fn parse_mac_payload(b: &[u8]) -> (r: Result<MacPayload, ParseError>)
    requires
        b@.len() >= 5,
        b@[0] % 4 == 0,
        is_data(mtype_of(b@[0])),
    ensures
        match r {
            Ok(p) => layout_error(b@) is None && mac_payload_matches(p, b@),
            Err(e) => layout_error(b@) == Some(e),
        },
{
    let n = b.len();
    if n - 5 < 7 {
        return Err(ParseError::MalformedFrame(FrameStep::FrameHeader));
    }
    let f_ctrl = b[5];
    let o: usize = 8 + (f_ctrl % 16) as usize;
    if o > n - 4 {
        return Err(ParseError::MalformedFrame(FrameStep::FrameOptions));
    }
    let dev_addr = read_le32(b, 1);
    let f_cnt = read_le16(b, 6);
    let f_opts = FOpts::Raw(copy_range(b, 8, o));
    let (f_port, frm_payload) = if o == n - 4 {
        (None, None)
    } else {
        (Some(b[o]), Some(FrmPayload::Raw(copy_range(b, o + 1, n - 4))))
    };
    Ok(MacPayload { dev_addr, f_ctrl, f_cnt, f_opts, f_port, frm_payload })
}

/// Bit `i` of a byte.
pub open spec fn bit(x: u8, i: nat) -> bool {
    (x as nat / pow2(i)) % 2 == 1
}

pub open spec fn pow2(i: nat) -> nat
    decreases i,
{
    if i == 0 {
        1
    } else {
        2 * pow2((i - 1) as nat)
    }
}

impl MacPayload {
    /// The ADR flag of the frame-control byte.
    pub fn adr(&self) -> (r: bool)
        ensures
            r == bit(self.f_ctrl, 7),
    {
        proof {
            reveal_with_fuel(pow2, 8);
        }
        (self.f_ctrl / 128) % 2 == 1
    }

    /// The ADR-ack-request flag of the frame-control byte.
    pub fn adr_ack_req(&self) -> (r: bool)
        ensures
            r == bit(self.f_ctrl, 6),
    {
        proof {
            reveal_with_fuel(pow2, 7);
        }
        (self.f_ctrl / 64) % 2 == 1
    }

    /// The ack flag of the frame-control byte.
    pub fn ack(&self) -> (r: bool)
        ensures
            r == bit(self.f_ctrl, 5),
    {
        proof {
            reveal_with_fuel(pow2, 6);
        }
        (self.f_ctrl / 32) % 2 == 1
    }

    /// The frame-pending flag (class B on uplinks) of the frame-control byte.
    pub fn f_pending(&self) -> (r: bool)
        ensures
            r == bit(self.f_ctrl, 4),
    {
        proof {
            reveal_with_fuel(pow2, 5);
        }
        (self.f_ctrl / 16) % 2 == 1
    }

    /// The FOpts length that the frame-control byte announces.
    pub fn f_opts_len(&self) -> (r: u8)
        ensures
            r == f_opts_len(self.f_ctrl),
    {
        self.f_ctrl % 16
    }
}

impl PhyPayload {
    /// The message type of the header byte.
    pub fn m_type(&self) -> (r: MType)
        ensures
            r == mtype_of(self.mhdr),
    {
        mtype_from(self.mhdr)
    }

    /// Parses a PHY payload, accounting for every byte of `b`.
    pub fn parse(b: &[u8]) -> (r: Result<PhyPayload, ParseError>)
        ensures
            match r {
                Ok(f) => layout_error(b@) is None && frame_matches(f, b@),
                Err(e) => layout_error(b@) == Some(e),
            },
    {
        let n = b.len();
        if n < 5 {
            return Err(ParseError::TruncatedInput);
        }
        let mhdr = b[0];
        if mhdr % 4 != 0 {
            return Err(ParseError::UnsupportedVersion);
        }
        let mic = copy_range(b, n - 4, n);
        let payload = match mtype_from(mhdr) {
            MType::JoinRequest => {
                if n != 23 {
                    return Err(ParseError::MalformedFrame(FrameStep::JoinRequestBody));
                }
                Payload::JoinRequest(
                    JoinRequestPayload {
                        join_eui: copy_range(b, 1, 9),
                        dev_eui: copy_range(b, 9, 17),
                        dev_nonce: read_le16(b, 17),
                    },
                )
            },
            MType::JoinAccept => {
                if n != 17 && n != 33 {
                    return Err(ParseError::MalformedJoinAccept);
                }
                let cf_list = if n == 17 {
                    None
                } else {
                    Some(copy_range(b, 13, 29))
                };
                Payload::JoinAccept(
                    JoinAcceptPayload {
                        join_nonce: copy_range(b, 1, 4),
                        home_net_id: copy_range(b, 4, 7),
                        dev_addr: read_le32(b, 7),
                        dl_settings: b[11],
                        rx_delay: b[12],
                        cf_list,
                    },
                )
            },
            MType::RejoinRequest | MType::Proprietary => Payload::Opaque(copy_range(b, 1, n - 4)),
            _ => {
                match parse_mac_payload(b) {
                    Ok(p) => Payload::Mac(p),
                    Err(e) => {
                        return Err(e);
                    },
                }
            },
        };
        Ok(PhyPayload { mhdr, payload, mic })
    }
}

} // verus!
