//! CTAPHID framing over 64-byte HID reports.
//!
//! An exchange writes one init packet (`CID CMD LEN payload...`) and as many
//! continuation packets (`CID SEQ payload...`) as the payload needs, then
//! reads packets back through a reassembly state machine that ignores
//! cross-talk from other channels, absorbs keepalives, enforces strictly
//! incrementing sequence numbers, and surfaces device errors.  Each report
//! on the wire is preceded by a zero HID report-id byte on writes.

use vstd::prelude::*;
use vstd::slice::slice_subrange;
use vstd::slice::slice_to_vec;

use crate::hexstr::hex_upper_of;
use crate::hexstr::hex_encode_upper;
use crate::types::PFError;

verus! {

/// Size of one HID report, without the report-id byte.
pub const HID_REPORT_SIZE: usize = 64;

/// The broadcast channel id used for channel negotiation.
pub const CTAPHID_CID_BROADCAST: u32 = 0xFFFF_FFFF;

/// CTAPHID INIT command byte.
pub const CTAPHID_INIT: u8 = 0x86;

/// CTAPHID CBOR command byte.
pub const CTAPHID_CBOR: u8 = 0x90;

/// CTAPHID ERROR command byte.
pub const CTAPHID_ERROR: u8 = 0xBF;

/// CTAPHID KEEPALIVE command byte.
pub const CTAPHID_KEEPALIVE: u8 = 0xBB;

/// The four big-endian bytes of a 32-bit value.
pub open spec fn be4(v: u32) -> Seq<u8> {
    seq![
        (v / 0x1000000) as u8,
        ((v / 0x10000) % 256) as u8,
        ((v / 256) % 256) as u8,
        (v % 256) as u8,
    ]
}

/// The 32-bit value of four big-endian bytes.
pub open spec fn be4_val(b: Seq<u8>) -> u32
    recommends
        b.len() >= 4,
{
    (b[0] * 0x1000000 + b[1] * 0x10000 + b[2] * 256 + b[3]) as u32
}

/// The 65-byte init report: report id 0, channel id, command byte, 16-bit
/// big-endian payload length, then the first 57 payload bytes, zero padded.
pub open spec fn init_report(cid: u32, cmd: u8, payload: Seq<u8>) -> Seq<u8> {
    Seq::new(
        65,
        |i: int|
            if i == 0 {
                0u8
            } else if i <= 4 {
                be4(cid)[i - 1]
            } else if i == 5 {
                cmd
            } else if i == 6 {
                (payload.len() / 256) as u8
            } else if i == 7 {
                (payload.len() % 256) as u8
            } else if i - 8 < payload.len() {
                payload[i - 8]
            } else {
                0u8
            },
    )
}

/// The 65-byte continuation report carrying payload bytes from `offset`:
/// report id 0, channel id, 7-bit sequence number, then 59 payload bytes,
/// zero padded.
pub open spec fn cont_report(cid: u32, k: int, payload: Seq<u8>, offset: int) -> Seq<u8> {
    Seq::new(
        65,
        |i: int|
            if i == 0 {
                0u8
            } else if i <= 4 {
                be4(cid)[i - 1]
            } else if i == 5 {
                (k % 128) as u8
            } else if offset + (i - 6) < payload.len() {
                payload[offset + (i - 6)]
            } else {
                0u8
            },
    )
}

/// How many continuation packets a payload of the given length needs: 57
/// bytes ride in the init packet, 59 in each continuation.
pub open spec fn cont_count(len: int) -> int {
    if len <= 57 {
        0
    } else {
        (len - 57 + 58) / 59
    }
}

/// The payload carried by a report sequence: 57 bytes from the init report
/// (after its 8-byte prefix), then 59 from each continuation (after its
/// 6-byte prefix), truncated to the declared total.
pub open spec fn reports_payload(reports: Seq<Seq<u8>>, total: int) -> Seq<u8> {
    Seq::new(
        total as nat,
        |i: int|
            if i < 57 {
                reports[0][8 + i]
            } else {
                reports[1 + (i - 57) / 59][6 + (i - 57) % 59]
            },
    )
}

/// Builds the full report sequence for one outbound message: the init
/// packet and exactly `cont_count` continuation packets with sequence
/// numbers counting up from 0.  Reassembling the reports gives the payload
/// back.
#[verifier::rlimit(60)]
pub fn build_request_reports(cid: u32, cmd: u8, payload: &[u8]) -> (r: Vec<Vec<u8>>)
    requires
        payload@.len() <= 0xFFFF,
    ensures
        r@.len() == 1 + cont_count(payload@.len() as int),
        r@[0]@ == init_report(cid, cmd, payload@),
        forall|k: int|
            1 <= k < r@.len() ==> #[trigger] r@[k]@ == cont_report(
                cid,
                k - 1,
                payload@,
                57 + 59 * (k - 1),
            ),
        reports_payload(r@.map_values(|rv: Vec<u8>| rv@), payload@.len() as int) == payload@,
{
    let total = payload.len();
    let mut reports: Vec<Vec<u8>> = Vec::new();

    let mut rep: Vec<u8> = Vec::new();
    rep.push(0);
    rep.push((cid >> 24) as u8);
    rep.push(((cid >> 16) & 0xFF) as u8);
    rep.push(((cid >> 8) & 0xFF) as u8);
    rep.push((cid & 0xFF) as u8);
    rep.push(cmd);
    rep.push((total >> 8) as u8);
    rep.push((total & 0xFF) as u8);
    proof {
        assert(cid >> 24 == cid / 0x1000000) by (bit_vector);
        assert((cid >> 16) & 0xFF == (cid / 0x10000) % 256) by (bit_vector);
        assert((cid >> 8) & 0xFF == (cid / 256) % 256) by (bit_vector);
        assert(cid & 0xFF == cid % 256) by (bit_vector);
        assert(total >> 8 == total / 256) by (bit_vector);
        assert(total & 0xFF == total % 256) by (bit_vector);
        assert(forall|i: int|
            0 <= i < rep@.len() ==> rep@[i] == init_report(cid, cmd, payload@)[i]);
    }
    let mut j: usize = 0;
    while j < 57
        invariant
            payload@.len() <= 0xFFFF,
            total == payload@.len(),
            rep@.len() == 8 + j,
            0 <= j <= 57,
            forall|i: int| 0 <= i < rep@.len() ==> rep@[i] == init_report(cid, cmd, payload@)[i],
        decreases 57 - j,
    {
        if j < total {
            rep.push(payload[j]);
        } else {
            rep.push(0);
        }
        j += 1;
    }
    proof {
        assert(rep@ =~= init_report(cid, cmd, payload@));
    }
    reports.push(rep);

    let mut sent: usize = if total < 57 {
        total
    } else {
        57
    };
    let mut k: usize = 0;
    while sent < total
        invariant
            payload@.len() <= 0xFFFF,
            total == payload@.len(),
            reports@.len() == 1 + k,
            sent == if total < 57 + 59 * k {
                total as int
            } else {
                57 + 59 * k
            },
            sent <= total,
            k == 0 || 57 + 59 * (k - 1) < total,
            reports@[0]@ == init_report(cid, cmd, payload@),
            forall|q: int|
                1 <= q < reports@.len() ==> #[trigger] reports@[q]@ == cont_report(
                    cid,
                    q - 1,
                    payload@,
                    57 + 59 * (q - 1),
                ),
        decreases total - sent,
    {
        let ghost off = 57 + 59 * k;
        let mut crep: Vec<u8> = Vec::new();
        crep.push(0);
        crep.push((cid >> 24) as u8);
        crep.push(((cid >> 16) & 0xFF) as u8);
        crep.push(((cid >> 8) & 0xFF) as u8);
        crep.push((cid & 0xFF) as u8);
        crep.push((k % 128) as u8);
        proof {
            assert(cid >> 24 == cid / 0x1000000) by (bit_vector);
            assert((cid >> 16) & 0xFF == (cid / 0x10000) % 256) by (bit_vector);
            assert((cid >> 8) & 0xFF == (cid / 256) % 256) by (bit_vector);
            assert(cid & 0xFF == cid % 256) by (bit_vector);
            assert(forall|i: int|
                0 <= i < crep@.len() ==> crep@[i] == cont_report(cid, k as int, payload@, off)[i]);
        }
        let mut j2: usize = 0;
        while j2 < 59
            invariant
                payload@.len() <= 0xFFFF,
                total == payload@.len(),
                sent == 57 + 59 * k,
                sent <= total,
                crep@.len() == 6 + j2,
                0 <= j2 <= 59,
                off == 57 + 59 * k,
                forall|i: int|
                    0 <= i < crep@.len() ==> crep@[i] == cont_report(cid, k as int, payload@, off)[i],
            decreases 59 - j2,
        {
            if sent + j2 < total {
                rep_push_payload_byte(&mut crep, payload, sent + j2);
            } else {
                crep.push(0);
            }
            proof {
                assert(crep@[6 + j2] == cont_report(cid, k as int, payload@, off)[6 + j2]);
            }
            j2 += 1;
        }
        proof {
            assert(crep@ =~= cont_report(cid, k as int, payload@, off));
        }
        reports.push(crep);
        let remaining = total - sent;
        if remaining < 59 {
            sent = total;
        } else {
            sent = sent + 59;
        }
        k += 1;
    }
    proof {
        let total_i = payload@.len() as int;
        if total_i <= 57 {
            assert(k == 0);
            assert(cont_count(total_i) == 0);
        } else {
            assert(sent == total_i);
            assert(total_i <= 57 + 59 * k);
            assert(k >= 1);
            assert(57 + 59 * (k - 1) < total_i);
            assert(cont_count(total_i) == (total_i - 57 + 58) / 59);
            assert(59 * (k - 1) < total_i - 57 <= 59 * k);
            assert((total_i - 57 + 58) / 59 == k as int);
        }
        let rs = reports@.map_values(|rv: Vec<u8>| rv@);
        assert forall|i: int| 0 <= i < total_i implies reports_payload(rs, total_i)[i]
            == payload@[i] by {
            if i < 57 {
                assert(rs[0][8 + i] == init_report(cid, cmd, payload@)[8 + i]);
            } else {
                let q = 1 + (i - 57) / 59;
                let off2 = 57 + 59 * (q - 1);
                assert(1 <= q < rs.len());
                assert(rs[q] == reports@[q]@);
                assert(rs[q][6 + (i - 57) % 59] == cont_report(cid, q - 1, payload@, off2)[6 + (i
                    - 57) % 59]);
                assert(off2 + ((i - 57) % 59) == i);
            }
        }
        assert(reports_payload(rs, total_i) =~= payload@);
    }
    reports
}

/// Pushes one payload byte; a helper so the continuation loop stays within
/// the prover's budget.
fn rep_push_payload_byte(rep: &mut Vec<u8>, payload: &[u8], idx: usize)
    requires
        idx < payload@.len(),
    ensures
        final(rep)@ == old(rep)@.push(payload@[idx as int]),
{
    rep.push(payload[idx]);
}


/// Renders one byte as two uppercase hex digits.
pub fn hex2(b: u8) -> (r: String)
    ensures
        r@ == hex_upper_of(seq![b]),
{
    let mut v: Vec<u8> = Vec::new();
    v.push(b);
    let r = hex_encode_upper(v.as_slice());
    proof {
        assert(v@ =~= seq![b]);
    }
    r
}

/// Message reported when the device answers with a CTAPHID ERROR packet.
pub open spec fn ctap_error_msg(code: u8) -> Seq<char> {
    "Device returned CTAP Error: 0x"@ + hex_upper_of(seq![code])
}

/// Message reported when the first packet answers a different command.
pub open spec fn unexpected_cmd_msg(got: u8, expected: u8) -> Seq<char> {
    "Unexpected command response: 0x"@ + hex_upper_of(seq![got]) + " (Expected 0x"@
        + hex_upper_of(seq![expected]) + ")"@
}

/// Message reported when the reassembled payload signals a CTAP failure.
pub open spec fn ctap_status_msg(code: u8) -> Seq<char> {
    "FIDO Operation Failed with Status: 0x"@ + hex_upper_of(seq![code])
}

/// One observation of the reassembly state machine after a report arrives.
pub enum ReadStep {
    /// The report belongs to another channel; it was discarded.
    Ignored,
    /// A keepalive with its status byte; the exchange is still pending.
    Keepalive(u8),
    /// The report was absorbed; more packets are needed.
    NeedMore,
    /// The payload is fully reassembled.
    Complete,
    /// The exchange failed; the reassembler is no longer usable.
    Failed(PFError),
}

/// The kind of a [`ReadStep`], without its payload or message.
#[derive(Debug, Clone, Copy, PartialEq, Eq, Structural)]
pub enum StepKind {
    Ignored,
    Keepalive,
    NeedMore,
    Complete,
    Failed,
}

impl ReadStep {
    /// The kind of this observation.
    pub open spec fn kind(&self) -> StepKind {
        match self {
            ReadStep::Ignored => StepKind::Ignored,
            ReadStep::Keepalive(_) => StepKind::Keepalive,
            ReadStep::NeedMore => StepKind::NeedMore,
            ReadStep::Complete => StepKind::Complete,
            ReadStep::Failed(_) => StepKind::Failed,
        }
    }
}

/// Spec image of a reassembler: the same fields with mathematical types.
pub struct ReassemblyState {
    pub cid: u32,
    pub cmd: u8,
    pub started: bool,
    pub expected_len: int,
    pub next_seq: int,
    pub data: Seq<u8>,
}

/// The whole reassembly transition for one 64-byte report, as a pure
/// function of the current state and the report: foreign channel ids are
/// ignored; before the first matching packet a keepalive leaves the state
/// untouched and an ERROR or foreign command byte fails; the first
/// matching packet declares the length and takes up to 57 bytes; a
/// continuation must carry exactly the expected sequence number — a
/// mismatch fails with the state untouched — and takes up to 59 bytes.
pub open spec fn push_spec(s: ReassemblyState, rep: Seq<u8>) -> (ReassemblyState, StepKind)
    recommends
        rep.len() == 64,
{
    let rcid = be4_val(rep.subrange(0, 4));
    if rcid != s.cid {
        (s, StepKind::Ignored)
    } else if !s.started {
        if rep[4] == CTAPHID_KEEPALIVE {
            (s, StepKind::Keepalive)
        } else if rep[4] == CTAPHID_ERROR {
            (s, StepKind::Failed)
        } else if rep[4] != s.cmd {
            (s, StepKind::Failed)
        } else {
            let el = rep[5] as int * 256 + rep[6] as int;
            let take = if el < 57 {
                el
            } else {
                57int
            };
            (
                ReassemblyState {
                    started: true,
                    expected_len: el,
                    next_seq: 0,
                    data: rep.subrange(7, 7 + take),
                    ..s
                },
                if take == el {
                    StepKind::Complete
                } else {
                    StepKind::NeedMore
                },
            )
        }
    } else if rep[4] as int != s.next_seq {
        (s, StepKind::Failed)
    } else {
        let missing = s.expected_len - s.data.len();
        let take = if missing < 59 {
            missing
        } else {
            59int
        };
        (
            ReassemblyState {
                next_seq: s.next_seq + 1,
                data: s.data + rep.subrange(5, 5 + take),
                ..s
            },
            if s.data.len() + take == s.expected_len {
                StepKind::Complete
            } else {
                StepKind::NeedMore
            },
        )
    }
}

/// The state after a whole sequence of reports, folded in order.
pub open spec fn push_all_spec(s: ReassemblyState, reports: Seq<Seq<u8>>) -> ReassemblyState
    decreases reports.len(),
{
    if reports.len() == 0 {
        s
    } else {
        push_all_spec(push_spec(s, reports.first()).0, reports.drop_first())
    }
}

/// A report that leaves a not-yet-started exchange pending: cross-talk
/// from another channel id, or a keepalive on this one.
pub open spec fn is_pending_report(s: ReassemblyState, rep: Seq<u8>) -> bool {
    be4_val(rep.subrange(0, 4)) != s.cid || (!s.started && rep[4] == CTAPHID_KEEPALIVE)
}

/// Sequence validation: once reassembly has started, a continuation whose
/// sequence byte differs from the expected counter fails the exchange and
/// contributes nothing — the packet is never skipped, reordered or
/// resynchronised.
pub proof fn lemma_sequence_mismatch_rejected(s: ReassemblyState, rep: Seq<u8>)
    requires
        s.started,
        be4_val(rep.subrange(0, 4)) == s.cid,
        rep[4] as int != s.next_seq,
    ensures
        push_spec(s, rep).1 == StepKind::Failed,
        push_spec(s, rep).0 == s,
{
}

/// Keepalive transparency: any run of keepalives and cross-talk before
/// the first matching packet leaves the state untouched, so a response
/// that follows the run is absorbed exactly as if the run had not
/// happened — in particular its payload bytes are the response's alone.
pub proof fn lemma_keepalives_transparent(
    s: ReassemblyState,
    pending: Seq<Seq<u8>>,
    resp: Seq<u8>,
)
    requires
        !s.started,
        forall|i: int| 0 <= i < pending.len() ==> is_pending_report(s, #[trigger] pending[i]),
    ensures
        push_all_spec(s, pending) == s,
        push_all_spec(s, pending.push(resp)) == push_spec(s, resp).0,
    decreases pending.len(),
{
    if pending.len() == 0 {
        assert(push_all_spec(s, pending) == s);
        let one = pending.push(resp);
        assert(one.first() == resp);
        assert(one.drop_first() =~= Seq::<Seq<u8>>::empty());
        assert(push_all_spec(s, one) == push_all_spec(push_spec(s, one.first()).0, one.drop_first()));
        assert(push_all_spec(push_spec(s, resp).0, one.drop_first()) == push_spec(s, resp).0);
    } else {
        assert(is_pending_report(s, pending.first()));
        assert(push_spec(s, pending.first()).0 == s);
        assert forall|i: int| 0 <= i < pending.drop_first().len() implies is_pending_report(
            s,
            #[trigger] pending.drop_first()[i],
        ) by {
            assert(pending.drop_first()[i] == pending[i + 1]);
        }
        lemma_keepalives_transparent(s, pending.drop_first(), resp);
        assert(push_all_spec(s, pending) == push_all_spec(s, pending.drop_first()));
        let ext = pending.push(resp);
        assert(ext.len() > 0);
        assert(ext.first() == pending.first());
        assert(ext.drop_first() =~= pending.drop_first().push(resp));
        assert(push_all_spec(s, ext) == push_all_spec(push_spec(s, ext.first()).0, ext.drop_first()));
        assert(push_all_spec(s, ext) == push_all_spec(s, pending.drop_first().push(resp)));
    }
}

/// Reassembles one CTAPHID response from 64-byte reports.
///
/// Reports from other channel ids are ignored; keepalives before the first
/// matching packet are absorbed without changing state; an ERROR packet or
/// an unexpected command byte fails the exchange; continuation packets must
/// carry strictly incrementing sequence numbers starting at 0, and any
/// mismatch is fatal with no resynchronisation.
pub struct ResponseReassembler {
    /// The negotiated channel id this exchange listens on.
    pub cid: u32,
    /// The command byte the response must echo.
    pub cmd: u8,
    /// Whether the first matching packet has been seen.
    pub started: bool,
    /// Total payload length declared by the first packet.
    pub expected_len: usize,
    /// The sequence number the next continuation packet must carry.
    pub next_seq: u16,
    /// Payload bytes gathered so far.
    pub data: Vec<u8>,
}

impl ResponseReassembler {
    /// The spec image of this state, as [`push_spec`] transforms it.
    pub open spec fn model(&self) -> ReassemblyState {
        ReassemblyState {
            cid: self.cid,
            cmd: self.cmd,
            started: self.started,
            expected_len: self.expected_len as int,
            next_seq: self.next_seq as int,
            data: self.data@,
        }
    }

    /// The state is internally consistent.
    pub open spec fn wf(&self) -> bool {
        &&& self.expected_len <= 0xFFFF
        &&& self.data@.len() <= self.expected_len
        &&& (!self.started ==> self.data@.len() == 0 && self.next_seq == 0 && self.expected_len
            == 0)
    }

    /// The whole declared payload has arrived.
    pub open spec fn is_complete(&self) -> bool {
        self.started && self.data@.len() == self.expected_len
    }

    /// A fresh reassembler for one exchange on the given channel, awaiting
    /// a response to the given command.
    pub fn new(cid: u32, cmd: u8) -> (r: Self)
        ensures
            r.cid == cid,
            r.cmd == cmd,
            !r.started,
            r.wf(),
            !r.is_complete(),
    {
        ResponseReassembler {
            cid,
            cmd,
            started: false,
            expected_len: 0,
            next_seq: 0,
            data: Vec::new(),
        }
    }

    /// Feeds one received report into the state machine.
    ///
    /// The contract spells out every transition: a foreign channel id is
    /// ignored and the state is untouched; before the first matching packet
    /// a KEEPALIVE is reported and the state is untouched, an ERROR packet
    /// or a wrong command byte fails; the first matching packet declares
    /// the total length and contributes up to 57 bytes; every continuation
    /// must carry the expected sequence number — a mismatch fails and
    /// contributes nothing — and contributes up to 59 bytes.
    #[verifier::rlimit(90)]
    pub fn push_report(&mut self, report: &[u8]) -> (step: ReadStep)
        requires
            report@.len() == 64,
            old(self).wf(),
            !old(self).is_complete(),
        ensures
            final(self).wf(),
            final(self).cid == old(self).cid,
            final(self).cmd == old(self).cmd,
            final(self).model() == push_spec(old(self).model(), report@).0,
            step.kind() == push_spec(old(self).model(), report@).1,
            ({
                let rep = report@;
                let s = *old(self);
                let rcid = be4_val(rep.subrange(0, 4));
                &&& (rcid != s.cid ==> step == ReadStep::Ignored && *final(self) == s)
                &&& (rcid == s.cid && !s.started && rep[4] == CTAPHID_KEEPALIVE ==> step
                    == ReadStep::Keepalive(rep[5]) && *final(self) == s)
                &&& (rcid == s.cid && !s.started && rep[4] == CTAPHID_ERROR ==> (step matches
                    ReadStep::Failed(e) && e matches PFError::Device(m) && m@ == ctap_error_msg(
                    rep[5],
                )) && *final(self) == s)
                &&& (rcid == s.cid && !s.started && rep[4] != CTAPHID_KEEPALIVE && rep[4]
                    != CTAPHID_ERROR && rep[4] != s.cmd ==> (step matches ReadStep::Failed(e)
                    && e matches PFError::Device(m) && m@ == unexpected_cmd_msg(rep[4], s.cmd))
                    && *final(self) == s)
                &&& (rcid == s.cid && !s.started && rep[4] == s.cmd && rep[4]
                    != CTAPHID_KEEPALIVE && rep[4] != CTAPHID_ERROR ==> ({
                    let el = rep[5] * 256 + rep[6];
                    let take = if el < 57 {
                        el
                    } else {
                        57
                    };
                    &&& final(self).started
                    &&& final(self).expected_len == el
                    &&& final(self).next_seq == 0
                    &&& final(self).data@ == rep.subrange(7, 7 + take)
                    &&& step == (if take == el {
                        ReadStep::Complete
                    } else {
                        ReadStep::NeedMore
                    })
                }))
                &&& (rcid == s.cid && s.started && rep[4] as int != s.next_seq as int ==> (step
                    matches ReadStep::Failed(e) && e matches PFError::Device(m) && m@
                    == "Sequence mismatch"@) && *final(self) == s)
                &&& (rcid == s.cid && s.started && rep[4] as int == s.next_seq as int ==> ({
                    let missing = s.expected_len - s.data@.len();
                    let take = if missing < 59 {
                        missing
                    } else {
                        59
                    };
                    &&& final(self).started
                    &&& final(self).expected_len == s.expected_len
                    &&& final(self).next_seq == s.next_seq + 1
                    &&& final(self).data@ == s.data@ + rep.subrange(5, 5 + take)
                    &&& step == (if s.data@.len() + take == s.expected_len {
                        ReadStep::Complete
                    } else {
                        ReadStep::NeedMore
                    })
                }))
            }),
    {
        let rcid: u32 = (report[0] as u32) * 0x1000000 + (report[1] as u32) * 0x10000 + (
        report[2] as u32) * 256 + (report[3] as u32);
        proof {
            assert(report@.subrange(0, 4)[0] == report@[0]);
            assert(report@.subrange(0, 4)[1] == report@[1]);
            assert(report@.subrange(0, 4)[2] == report@[2]);
            assert(report@.subrange(0, 4)[3] == report@[3]);
        }
        if rcid != self.cid {
            return ReadStep::Ignored;
        }
        if !self.started {
            let cmd_byte = report[4];
            if cmd_byte == CTAPHID_KEEPALIVE {
                return ReadStep::Keepalive(report[5]);
            }
            if cmd_byte == CTAPHID_ERROR {
                proof {
                    reveal_strlit("Device returned CTAP Error: 0x");
                }
                let mut msg = String::from_str("Device returned CTAP Error: 0x");
                let code_s = hex2(report[5]);
                msg.append(code_s.as_str());
                return ReadStep::Failed(PFError::Device(msg));
            }
            if cmd_byte != self.cmd {
                proof {
                    reveal_strlit("Unexpected command response: 0x");
                    reveal_strlit(" (Expected 0x");
                    reveal_strlit(")");
                }
                let mut msg = String::from_str("Unexpected command response: 0x");
                let got_s = hex2(cmd_byte);
                msg.append(got_s.as_str());
                msg.append(" (Expected 0x");
                let exp_s = hex2(self.cmd);
                msg.append(exp_s.as_str());
                msg.append(")");
                return ReadStep::Failed(PFError::Device(msg));
            }
            let el: usize = (report[5] as usize) * 256 + (report[6] as usize);
            let take: usize = if el < 57 {
                el
            } else {
                57
            };
            self.started = true;
            self.expected_len = el;
            self.next_seq = 0;
            self.data = slice_to_vec(slice_subrange(report, 7, 7 + take));
            if take == el {
                return ReadStep::Complete;
            } else {
                return ReadStep::NeedMore;
            }
        }
        let seq_byte = report[4];
        if (seq_byte as u16) != self.next_seq {
            proof {
                reveal_strlit("Sequence mismatch");
            }
            return ReadStep::Failed(PFError::Device(String::from_str("Sequence mismatch")));
        }
        let missing = self.expected_len - self.data.len();
        let take: usize = if missing < 59 {
            missing
        } else {
            59
        };
        let chunk = slice_subrange(report, 5, 5 + take);
        let mut idx: usize = 0;
        let ghost base = self.data@;
        while idx < take
            invariant
                0 <= idx <= take,
                take <= chunk@.len(),
                chunk@.len() == take,
                self.data@ == base + chunk@.take(idx as int),
                self.cid == old(self).cid,
                self.cmd == old(self).cmd,
                self.started == old(self).started,
                self.expected_len == old(self).expected_len,
                self.next_seq == old(self).next_seq,
            decreases take - idx,
        {
            let b = chunk[idx];
            self.data.push(b);
            proof {
                assert(base + chunk@.take(idx + 1) =~= (base + chunk@.take(idx as int)).push(
                    chunk@[idx as int],
                ));
            }
            idx += 1;
        }
        proof {
            assert(chunk@.take(take as int) =~= chunk@);
        }
        self.next_seq = self.next_seq + 1;
        if self.data.len() == self.expected_len {
            ReadStep::Complete
        } else {
            ReadStep::NeedMore
        }
    }

    /// Hands out the reassembled payload once it is complete.
    pub fn into_payload(self) -> (r: Vec<u8>)
        requires
            self.is_complete(),
        ensures
            r@ == self.data@,
    {
        self.data
    }
}

/// Splits a reassembled CTAP payload into status and body: an empty payload
/// or a non-zero leading status byte is a device failure carrying that
/// code, otherwise the rest of the payload is the successful response.
pub fn ctap_unwrap_response(payload: Vec<u8>) -> (r: Result<Vec<u8>, PFError>)
    ensures
        payload@.len() == 0 ==> (r matches Err(e) && e matches PFError::Device(m) && m@
            == "Empty response"@),
        payload@.len() > 0 && payload@[0] != 0 ==> (r matches Err(e) && e matches PFError::Device(
            m,
        ) && m@ == ctap_status_msg(payload@[0])),
        payload@.len() > 0 && payload@[0] == 0 ==> (r matches Ok(v) && v@ == payload@.skip(1)),
{
    if payload.len() == 0 {
        proof {
            reveal_strlit("Empty response");
        }
        return Err(PFError::Device(String::from_str("Empty response")));
    }
    let status = payload[0];
    if status != 0 {
        proof {
            reveal_strlit("FIDO Operation Failed with Status: 0x");
        }
        let mut msg = String::from_str("FIDO Operation Failed with Status: 0x");
        let code_s = hex2(status);
        msg.append(code_s.as_str());
        return Err(PFError::Device(msg));
    }
    let body = slice_to_vec(slice_subrange(payload.as_slice(), 1, payload.len()));
    proof {
        assert(body@ =~= payload@.skip(1));
    }
    Ok(body)
}

/// Relies on `rand::random`: draws a fresh 8-byte nonce from the
/// thread-local generator.  Nothing is promised of the values, only the
/// length.
#[verifier::external_body]
pub fn random_nonce() -> (r: Vec<u8>)
    ensures
        r@.len() == 8,
{
    rand::random::<[u8; 8]>().to_vec()
}

/// Builds the 65-byte CTAPHID INIT broadcast report carrying a nonce.
pub fn build_init_request(nonce: &[u8]) -> (r: Vec<u8>)
    requires
        nonce@.len() == 8,
    ensures
        r@ == init_report(CTAPHID_CID_BROADCAST, CTAPHID_INIT, nonce@),
{
    let mut reports = build_request_reports(CTAPHID_CID_BROADCAST, CTAPHID_INIT, nonce);
    reports.remove(0)
}

/// Draws a fresh nonce and builds the INIT broadcast report around it;
/// the caller matches responses against the returned nonce.
pub fn fresh_init_request() -> (r: (Vec<u8>, Vec<u8>))
    ensures
        r.1@.len() == 8,
        r.0@ == init_report(CTAPHID_CID_BROADCAST, CTAPHID_INIT, r.1@),
{
    let nonce = random_nonce();
    let report = build_init_request(nonce.as_slice());
    (report, nonce)
}

/// Checks an INIT response report against the nonce that was broadcast:
/// the report must answer on the broadcast channel, echo the INIT command
/// and the nonce; the new channel id is then read from bytes 15 to 18.
pub fn parse_init_response(nonce: &[u8], report: &[u8]) -> (r: Option<u32>)
    requires
        nonce@.len() == 8,
        report@.len() == 64,
    ensures
        r is Some <==> (report@.subrange(0, 4) == be4(CTAPHID_CID_BROADCAST) && report@[4]
            == CTAPHID_INIT && report@.subrange(7, 15) == nonce@),
        r matches Some(c) ==> c == be4_val(report@.subrange(15, 19)),
{
    if !(report[0] == 0xFF && report[1] == 0xFF && report[2] == 0xFF && report[3] == 0xFF) {
        proof {
            assert(report@.subrange(0, 4) != be4(CTAPHID_CID_BROADCAST)) by {
                if report@.subrange(0, 4) == be4(CTAPHID_CID_BROADCAST) {
                    assert(report@[0] == be4(CTAPHID_CID_BROADCAST)[0]);
                    assert(report@[1] == be4(CTAPHID_CID_BROADCAST)[1]);
                    assert(report@[2] == be4(CTAPHID_CID_BROADCAST)[2]);
                    assert(report@[3] == be4(CTAPHID_CID_BROADCAST)[3]);
                }
            }
        }
        return None;
    }
    if report[4] != CTAPHID_INIT {
        return None;
    }
    let mut i: usize = 0;
    while i < 8
        invariant
            0 <= i <= 8,
            nonce@.len() == 8,
            report@.len() == 64,
            forall|j: int| 0 <= j < i ==> report@[7 + j] == nonce@[j],
        decreases 8 - i,
    {
        if report[7 + i] != nonce[i] {
            proof {
                assert(report@.subrange(7, 15)[i as int] != nonce@[i as int]);
            }
            return None;
        }
        i += 1;
    }
    let cid: u32 = (report[15] as u32) * 0x1000000 + (report[16] as u32) * 0x10000 + (
    report[17] as u32) * 256 + (report[18] as u32);
    proof {
        assert(report@.subrange(0, 4) =~= be4(CTAPHID_CID_BROADCAST));
        assert(report@.subrange(7, 15) =~= nonce@);
        assert(report@.subrange(15, 19)[0] == report@[15]);
        assert(report@.subrange(15, 19)[1] == report@[16]);
        assert(report@.subrange(15, 19)[2] == report@[17]);
        assert(report@.subrange(15, 19)[3] == report@[18]);
    }
    Some(cid)
}

} // verus!
