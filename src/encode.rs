//! Writing a frame back to bytes, and the laws that tie the layout, the parser
//! and the encoder together.
use vstd::prelude::*;

use crate::bytes::{le16_bytes, le32_bytes, push_all, push_le16, push_le32};
use crate::frame::{FOpts, FrmPayload, Payload, PhyPayload};

verus! {

pub open spec fn opt_bytes(v: Option<Vec<u8>>) -> Seq<u8> {
    match v {
        Some(c) => c@,
        None => Seq::empty(),
    }
}

pub open spec fn port_bytes(p: Option<u8>) -> Seq<u8> {
    match p {
        Some(x) => seq![x],
        None => Seq::empty(),
    }
}

/// The bytes of a frame whose options and payload are raw, or `None` once either
/// has been decoded.
pub open spec fn encoding(f: PhyPayload) -> Option<Seq<u8>> {
    match f.payload {
        Payload::JoinRequest(p) => Some(
            seq![f.mhdr] + p.join_eui@ + p.dev_eui@ + le16_bytes(p.dev_nonce) + f.mic@,
        ),
        Payload::JoinAccept(p) => Some(
            seq![f.mhdr] + p.join_nonce@ + p.home_net_id@ + le32_bytes(p.dev_addr) + seq![
                p.dl_settings,
                p.rx_delay,
            ] + opt_bytes(p.cf_list) + f.mic@,
        ),
        Payload::Mac(p) => match p.f_opts {
            FOpts::Raw(o) => {
                let head = seq![f.mhdr] + le32_bytes(p.dev_addr) + seq![p.f_ctrl] + le16_bytes(
                    p.f_cnt,
                ) + o@ + port_bytes(p.f_port);
                match p.frm_payload {
                    None => Some(head + f.mic@),
                    Some(FrmPayload::Raw(v)) => Some(head + v@ + f.mic@),
                    Some(FrmPayload::Decrypted(_)) => None,
                }
            },
            FOpts::Decoded(_) => None,
        },
        Payload::Opaque(v) => Some(seq![f.mhdr] + v@ + f.mic@),
    }
}

impl PhyPayload {
    /// The bytes of this frame, or `None` once its options or payload were decoded.
    pub fn to_bytes(&self) -> (r: Option<Vec<u8>>)
        ensures
            match r {
                Some(v) => encoding(*self) == Some(v@),
                None => encoding(*self) is None,
            },
    {
        let mut out: Vec<u8> = Vec::new();
        out.push(self.mhdr);
        match &self.payload {
            Payload::JoinRequest(p) => {
                push_all(&mut out, &p.join_eui);
                push_all(&mut out, &p.dev_eui);
                push_le16(&mut out, p.dev_nonce);
            },
            Payload::JoinAccept(p) => {
                push_all(&mut out, &p.join_nonce);
                push_all(&mut out, &p.home_net_id);
                push_le32(&mut out, p.dev_addr);
                out.push(p.dl_settings);
                out.push(p.rx_delay);
                match &p.cf_list {
                    Some(c) => push_all(&mut out, c),
                    None => {},
                }
            },
            Payload::Mac(p) => {
                push_le32(&mut out, p.dev_addr);
                out.push(p.f_ctrl);
                push_le16(&mut out, p.f_cnt);
                match &p.f_opts {
                    FOpts::Raw(o) => push_all(&mut out, o),
                    FOpts::Decoded(_) => {
                        return None;
                    },
                }
                match p.f_port {
                    Some(x) => out.push(x),
                    None => {},
                }
                match &p.frm_payload {
                    Some(FrmPayload::Raw(v)) => push_all(&mut out, v),
                    Some(FrmPayload::Decrypted(_)) => {
                        return None;
                    },
                    None => {},
                }
            },
            Payload::Opaque(v) => push_all(&mut out, v),
        }
        push_all(&mut out, &self.mic);
        assert(out@ =~= encoding(*self)->Some_0);
        Some(out)
    }
}

} // verus!
