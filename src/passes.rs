//! The two best-effort passes over an already parsed frame: MAC commands out of
//! the frame options, and decryption of the frame payload.
use vstd::prelude::*;

use crate::frame::{is_uplink, mtype_from, mtype_of, FOpts, MType, FrmPayload, MacPayload, Payload, PhyPayload};
use crate::keystore::{key_for, KeyStore};

verus! {

/// What lrwn's MAC-command decoder makes of `b` in the given direction: `None`
/// where it fails, else for each command whether it carries an unknown opcode.
pub uninterp spec fn mac_decode(b: Seq<u8>, uplink: bool) -> Option<Seq<bool>>;

/// For each command of a set, whether it carries an unknown opcode.
pub uninterp spec fn unknown_flags(s: lrwn::MACCommandSet) -> Seq<bool>;

/// Uplink options in which a DevStatusAns opcode (0x06) stands two bytes before a
/// margin byte from 0x80 to 0xBF, anywhere. lrwn takes such a margin byte as an `i8`
/// and subtracts 64, which overflows; such options are refused before lrwn sees them.
/// (A margin is six bits wide, so a DevStatusAns with such a byte is malformed anyway;
/// the pattern may also stand across two other commands, which are then refused too.)
pub open spec fn margin_hazard(b: Seq<u8>, uplink: bool) -> bool {
    uplink && exists|i: int| 0 <= i && i + 2 < b.len() && #[trigger] b[i] == 6 && 0x80 <= b[i + 2] <= 0xbf
}

/// The MAC-command pass accepts `b`: no margin hazard, every opcode known in the
/// given direction and every command whole.
pub open spec fn mac_accepted(b: Seq<u8>, uplink: bool) -> bool {
    &&& !margin_hazard(b, uplink)
    &&& mac_decode(b, uplink) matches Some(k) && forall|i: int| 0 <= i < k.len() ==> !k[i]
}

/// The error that the MAC-command pass reports on raw options that it does not accept.
pub open spec fn mac_error(e: DecodeError, b: Seq<u8>, uplink: bool) -> bool {
    if margin_hazard(b, uplink) {
        e is MarginOutOfRange
    } else if mac_decode(b, uplink) is Some {
        e is UnknownMacCommand
    } else {
        e is MalformedMacCommand
    }
}

/// `f` holds decoded MAC commands whose unknown-opcode flags are `k`.
pub open spec fn decoded_as(f: FOpts, k: Seq<bool>) -> bool {
    f matches FOpts::Decoded(s) && unknown_flags(s) == k
}

/// The LoRaWAN frame-payload keystream applied to `data`.
pub uninterp spec fn frm_cipher(key: Seq<u8>, uplink: bool, dev_addr: u32, f_cnt: u32, data: Seq<u8>) -> Seq<u8>;

/// Relies on lrwn's `MACCommandSet::from_slice` and `MACCommandSet::decode_from_raw`,
/// which hold the opcode tables of both directions; the outcome depends on the bytes
/// and the direction alone. Of lrwn's command decoders only DevStatusAns (uplink 0x06)
/// can overflow, on a margin byte from 0x80 to 0xBF: `requires` leaves those bytes out.
#[verifier::external_body]
fn mac_commands_from(b: &Vec<u8>, uplink: bool) -> (r: Result<lrwn::MACCommandSet, String>)
    requires
        !margin_hazard(b@, uplink),
    ensures
        r is Ok == mac_decode(b@, uplink) is Some,
        r is Ok ==> unknown_flags(r->Ok_0) == mac_decode(b@, uplink)->Some_0,
{
    let mut set = lrwn::MACCommandSet::from_slice(b);
    match set.decode_from_raw(uplink) {
        Ok(()) => Ok(set),
        Err(e) => Err(e.to_string()),
    }
}

/// Relies on lrwn's `MACCommandSet` dereferencing to its `Vec` of commands: their number.
#[verifier::external_body]
fn command_count(s: &lrwn::MACCommandSet) -> (r: usize)
    ensures
        r == unknown_flags(*s).len(),
{
    s.len()
}

/// Relies on lrwn's `MACCommand::Raw`, the variant in which `decode_from_raw` keeps an
/// unknown opcode and the bytes after it.
#[verifier::external_body]
fn command_is_unknown(s: &lrwn::MACCommandSet, i: usize) -> (r: bool)
    requires
        i < unknown_flags(*s).len(),
    ensures
        r == unknown_flags(*s)[i as int],
{
    match &s[i] {
        lrwn::MACCommand::Raw(_) => true,
        _ => false,
    }
}

/// Relies on lrwn's `encrypt_frm_payload`: the counter-mode keystream of the frame
/// payload scheme, a function of its arguments that always returns `Ok` with as many
/// bytes as it was given.
#[verifier::external_body]
fn frm_crypt(key: [u8; 16], uplink: bool, dev_addr: u32, f_cnt: u32, data: &Vec<u8>) -> (r: Result<Vec<u8>, String>)
    ensures
        r is Ok,
        r->Ok_0@ == frm_cipher(key@, uplink, dev_addr, f_cnt, data@),
        r->Ok_0@.len() == data@.len(),
{
    let key = lrwn::AES128Key::from_bytes(key);
    let dev_addr = lrwn::DevAddr::from_le_bytes(dev_addr.to_le_bytes());
    lrwn::encrypt_frm_payload(&key, uplink, &dev_addr, f_cnt, data).map_err(|e| e.to_string())
}

/// Whether some DevStatusAns opcode in uplink options `b` stands two bytes before a
/// margin byte from 0x80 to 0xBF.
fn has_margin_hazard(b: &Vec<u8>, uplink: bool) -> (r: bool)
    ensures
        r == margin_hazard(b@, uplink),
{
    if !uplink {
        return false;
    }
    let n = b.len();
    let mut i: usize = 0;
    while i < n
        invariant
            uplink,
            n == b@.len(),
            i <= n,
            forall|j: int| 0 <= j < i && j + 2 < n ==> !(b@[j] == 6 && 0x80 <= b@[j + 2] <= 0xbf),
        decreases n - i,
    {
        if n - i > 2 && b[i] == 6 && 0x80 <= b[i + 2] && b[i + 2] <= 0xbf {
            let ghost k = i as int;
            assert(0 <= k && k + 2 < b@.len() && b@[k] == 6 && 0x80 <= b@[k + 2] <= 0xbf);
            return true;
        }
        i = i + 1;
    }
    false
}

/// Whether some command of `set` carries an unknown opcode.
fn has_unknown_command(set: &lrwn::MACCommandSet) -> (r: bool)
    ensures
        r == exists|i: int| 0 <= i < unknown_flags(*set).len() && unknown_flags(*set)[i],
{
    let n = command_count(set);
    let mut i: usize = 0;
    while i < n
        invariant
            n == unknown_flags(*set).len(),
            i <= n,
            forall|j: int| 0 <= j < i ==> !unknown_flags(*set)[j],
        decreases n - i,
    {
        if command_is_unknown(set, i) {
            return true;
        }
        i = i + 1;
    }
    false
}

/// Why a secondary pass left its field as it was.
#[derive(Debug)]
pub enum DecodeError {
    NotDataMessage,
    MarginOutOfRange,
    UnknownMacCommand,
    MalformedMacCommand(String),
    MissingFPort,
    KeyUnavailable,
}

/// Every field of `q` but the frame options is that of `p`.
pub open spec fn same_but_f_opts(p: MacPayload, q: MacPayload) -> bool {
    &&& q.dev_addr == p.dev_addr
    &&& q.f_ctrl == p.f_ctrl
    &&& q.f_cnt == p.f_cnt
    &&& q.f_port == p.f_port
    &&& q.frm_payload == p.frm_payload
}

/// Every field of `q` but the frame payload is that of `p`.
pub open spec fn same_but_frm(p: MacPayload, q: MacPayload) -> bool {
    &&& q.dev_addr == p.dev_addr
    &&& q.f_ctrl == p.f_ctrl
    &&& q.f_cnt == p.f_cnt
    &&& q.f_port == p.f_port
    &&& q.f_opts == p.f_opts
}

/// `f` holds a decrypted payload of exactly the bytes `w`.
pub open spec fn holds_plaintext(f: Option<FrmPayload>, w: Seq<u8>) -> bool {
    f matches Some(FrmPayload::Decrypted(x)) && x@ == w
}

impl PhyPayload {
    /// Replaces raw frame options by the MAC commands that they encode; on failure
    /// the frame is left as it was.
    pub fn decode_mac_commands(&mut self) -> (r: Result<(), DecodeError>)
        ensures
            final(self).mhdr == old(self).mhdr,
            final(self).mic == old(self).mic,
            match old(self).payload {
                Payload::Mac(p) => match p.f_opts {
                    FOpts::Raw(v) => if mac_accepted(v@, is_uplink(mtype_of(old(self).mhdr))) {
                        r is Ok && (final(self).payload matches Payload::Mac(q) && decoded_as(
                            q.f_opts,
                            mac_decode(v@, is_uplink(mtype_of(old(self).mhdr)))->Some_0,
                        ) && same_but_f_opts(p, q))
                    } else {
                        r matches Err(e) && mac_error(e, v@, is_uplink(mtype_of(old(self).mhdr)))
                            && *final(self) == *old(self)
                    },
                    FOpts::Decoded(_) => r is Ok && *final(self) == *old(self),
                },
                _ => r matches Err(DecodeError::NotDataMessage) && *final(self) == *old(self),
            },
    {
        let uplink = uplink_of(self.mhdr);
        match &mut self.payload {
            Payload::Mac(p) => {
                let decoded = match &p.f_opts {
                    FOpts::Raw(v) => {
                        if has_margin_hazard(v, uplink) {
                            return Err(DecodeError::MarginOutOfRange);
                        }
                        mac_commands_from(v, uplink)
                    },
                    FOpts::Decoded(_) => {
                        return Ok(());
                    },
                };
                let set = match decoded {
                    Ok(set) => set,
                    Err(m) => {
                        return Err(DecodeError::MalformedMacCommand(m));
                    },
                };
                if has_unknown_command(&set) {
                    return Err(DecodeError::UnknownMacCommand);
                }
                p.f_opts = FOpts::Decoded(set);
                Ok(())
            },
            _ => Err(DecodeError::NotDataMessage),
        }
    }

    /// Decrypts a raw frame payload with the key that `keys` holds for the device
    /// address; on failure the frame is left as it was.
    pub fn decode_frm_payload(&mut self, keys: &KeyStore) -> (r: Result<(), DecodeError>)
        ensures
            final(self).mhdr == old(self).mhdr,
            final(self).mic == old(self).mic,
            match old(self).payload {
                Payload::Mac(p) => if p.f_port is None {
                    r matches Err(DecodeError::MissingFPort) && *final(self) == *old(self)
                } else {
                    match p.frm_payload {
                        Some(FrmPayload::Raw(v)) => match key_for(keys@, p.dev_addr) {
                            Some(k) => r is Ok && (final(self).payload matches Payload::Mac(q)
                                && same_but_frm(p, q) && holds_plaintext(q.frm_payload, frm_cipher(
                                k@,
                                is_uplink(mtype_of(old(self).mhdr)),
                                p.dev_addr,
                                p.f_cnt as u32,
                                v@,
                            )) && frm_cipher(
                                k@,
                                is_uplink(mtype_of(old(self).mhdr)),
                                p.dev_addr,
                                p.f_cnt as u32,
                                v@,
                            ).len() == v@.len()),
                            None => r matches Err(DecodeError::KeyUnavailable) && *final(self)
                                == *old(self),
                        },
                        _ => r is Ok && *final(self) == *old(self),
                    }
                },
                _ => r matches Err(DecodeError::NotDataMessage) && *final(self) == *old(self),
            },
    {
        let uplink = uplink_of(self.mhdr);
        match &mut self.payload {
            Payload::Mac(p) => {
                if p.f_port.is_none() {
                    return Err(DecodeError::MissingFPort);
                }
                let key = match keys.lookup(p.dev_addr) {
                    Some(k) => k,
                    None => {
                        return match &p.frm_payload {
                            Some(FrmPayload::Raw(_)) => Err(DecodeError::KeyUnavailable),
                            _ => Ok(()),
                        };
                    },
                };
                let plain = match &p.frm_payload {
                    Some(FrmPayload::Raw(v)) => frm_crypt(key, uplink, p.dev_addr, p.f_cnt as u32, v),
                    _ => {
                        return Ok(());
                    },
                };
                p.frm_payload = Some(FrmPayload::Decrypted(plain.unwrap()));
                Ok(())
            },
            _ => Err(DecodeError::NotDataMessage),
        }
    }
}

/// Whether a header byte announces a message sent by the end device.
pub fn uplink_of(mhdr: u8) -> (r: bool)
    ensures
        r == is_uplink(mtype_of(mhdr)),
{
    match mtype_from(mhdr) {
        MType::JoinRequest | MType::UnconfirmedDataUp | MType::ConfirmedDataUp
        | MType::RejoinRequest => true,
        _ => false,
    }
}

} // verus!
