//! Properties that span several operations of the library.

use vstd::prelude::*;

use crate::buffer::{InstrBuf, InstrIter};
use crate::engine::{Arch, OptType, CS_ERR_OK, CS_OPT_ON};
use crate::handle::{details_after_history, details_after_option, last_detail_setting, Capstone};
use crate::instr::{Instr, InstrIdArch, RawDetail, RawInsn};
use crate::text::{c_str_len, lemma_c_str_len, lemma_c_text_is_bytes};

verus! {

/// Once the detail option has been set successfully, every instruction of a
/// later disassembly carries details exactly when the value set was "on".
pub proof fn lemma_detail_option_governs_details(
    before: bool,
    value: u32,
    buf: InstrBuf,
    index: int,
    i: Instr,
)
    requires
        buf.decode_detail() == details_after_option(before, OptType::Detail, value, CS_ERR_OK),
        0 <= index < buf.raw().len(),
        i.decoded_from(buf.raw()[index], buf.decode_detail(), buf.arch()),
    ensures
        i.detail is Some <==> value == CS_OPT_ON,
{
}

/// A failed setting, or a setting of any option other than the detail option,
/// leaves the detail option as it was.
pub proof fn lemma_other_settings_keep_details(before: bool, typ: OptType, value: u32, err: u32)
    requires
        err != CS_ERR_OK || typ != OptType::Detail,
    ensures
        details_after_option(before, typ, value, err) == before,
{
}

/// A handle whose detail option is off (as every newly opened handle is)
/// disassembles into instructions without details.
pub proof fn lemma_details_off_gives_no_details(c: Capstone, buf: InstrBuf, raw: RawInsn, i: Instr)
    requires
        !c.spec_details_on(),
        buf.decode_detail() == c.spec_details_on(),
        i.decoded_from(raw, buf.decode_detail(), buf.arch()),
    ensures
        i.detail is None,
{
}

/// After any sequence of option settings on a newly opened handle, details are
/// on exactly when the most recent successful setting of the detail option
/// turned them on, and off when there was none.
pub proof fn lemma_details_follow_last_setting(history: Seq<(OptType, u32, u32)>)
    ensures
        details_after_history(history) == (last_detail_setting(history) == Some(CS_OPT_ON)),
    decreases history.len(),
{
    if history.len() > 0 {
        lemma_details_follow_last_setting(history.drop_last());
    }
}

/// A handle taken from opening through the option settings of `history`
/// (`handles[k + 1]` is `handles[k]` after the `k`-th setting) disassembles
/// into instructions that carry details exactly when the most recent
/// successful setting of the detail option was "on".
pub proof fn lemma_disassembly_after_settings(
    handles: Seq<Capstone>,
    history: Seq<(OptType, u32, u32)>,
    buf: InstrBuf,
    index: int,
    i: Instr,
)
    requires
        handles.len() == history.len() + 1,
        !handles[0].spec_details_on(),
        forall|k: int|
            0 <= k < history.len() ==> #[trigger] handles[k + 1].spec_details_on()
                == details_after_option(
                handles[k].spec_details_on(),
                history[k].0,
                history[k].1,
                history[k].2,
            ),
        buf.decode_detail() == handles.last().spec_details_on(),
        0 <= index < buf.raw().len(),
        i.decoded_from(buf.raw()[index], buf.decode_detail(), buf.arch()),
    ensures
        i.detail is Some <==> last_detail_setting(history) == Some(CS_OPT_ON),
{
    lemma_handles_follow_history(handles, history);
    lemma_details_follow_last_setting(history);
}

/// The handles of a sequence of settings hold the detail state that the
/// settings so far give.
proof fn lemma_handles_follow_history(handles: Seq<Capstone>, history: Seq<(OptType, u32, u32)>)
    requires
        handles.len() == history.len() + 1,
        !handles[0].spec_details_on(),
        forall|k: int|
            0 <= k < history.len() ==> #[trigger] handles[k + 1].spec_details_on()
                == details_after_option(
                handles[k].spec_details_on(),
                history[k].0,
                history[k].1,
                history[k].2,
            ),
    ensures
        handles.last().spec_details_on() == details_after_history(history),
    decreases history.len(),
{
    if history.len() > 0 {
        let n = history.len() as int;
        let hs = handles.drop_last();
        let hi = history.drop_last();
        assert forall|k: int| 0 <= k < hi.len() implies #[trigger] hs[k + 1].spec_details_on()
            == details_after_option(hs[k].spec_details_on(), hi[k].0, hi[k].1, hi[k].2) by {
            assert(hs[k + 1] == handles[k + 1]);
            assert(handles[k + 1].spec_details_on() == details_after_option(
                handles[k].spec_details_on(),
                history[k].0,
                history[k].1,
                history[k].2,
            ));
        }
        lemma_handles_follow_history(hs, hi);
        assert(handles[n].spec_details_on() == details_after_option(
            handles[n - 1].spec_details_on(),
            history[n - 1].0,
            history[n - 1].1,
            history[n - 1].2,
        ));
    }
}

/// Two instructions decoded from the same record, with the same detail
/// setting and architecture, agree field by field.
pub proof fn lemma_decoding_is_determined(
    i1: Instr,
    i2: Instr,
    raw: RawInsn,
    decode_detail: bool,
    arch: Arch,
)
    requires
        i1.decoded_from(raw, decode_detail, arch),
        i2.decoded_from(raw, decode_detail, arch),
    ensures
        i1.id == i2.id,
        i1.address == i2.address,
        i1.size == i2.size,
        i1.bytes@ == i2.bytes@,
        i1.mnemonic@ == i2.mnemonic@,
        i1.op_str@ == i2.op_str@,
        i1.detail is Some <==> i2.detail is Some,
        i1.detail matches Some(d1) ==> i2.detail matches Some(d2) && d1.regs_read@ == d2.regs_read@
            && d1.regs_write@ == d2.regs_write@ && d1.groups@ == d2.groups@ && d1.arch == d2.arch,
{
}

/// Iterating a buffer from its start: the `k`-th step yields the buffer's
/// `k`-th instruction while there is one and `None` from then on, so the
/// iterator yields exactly as many instructions as the buffer holds, in
/// order, and stays exhausted once it has yielded `None`.
pub proof fn lemma_iteration_walks_buffer<'a>(
    steps: Seq<InstrIter<'a>>,
    outs: Seq<Option<Instr>>,
    buf: InstrBuf,
)
    requires
        steps.len() == outs.len() + 1,
        steps[0].buf() == buf,
        steps[0].current() == 0,
        forall|k: int|
            0 <= k < outs.len() ==> #[trigger] steps[k].stepped_to(steps[k + 1])
                && steps[k].yields(outs[k]),
    ensures
        forall|k: int| 0 <= k < outs.len() ==> (#[trigger] outs[k] is Some <==> k < buf.raw().len()),
        forall|k: int|
            0 <= k < outs.len() ==> (#[trigger] outs[k] matches Some(i) ==> i.decoded_from(
                buf.raw()[k],
                buf.decode_detail(),
                buf.arch(),
            )),
        forall|j: int, k: int|
            0 <= j <= k < outs.len() && #[trigger] outs[j] is None ==> #[trigger] outs[k] is None,
{
    lemma_steps_count_up(steps, outs, buf);
    assert forall|k: int| 0 <= k < outs.len() implies (#[trigger] outs[k] is Some <==> k
        < buf.raw().len()) by {
        assert(steps[k].stepped_to(steps[k + 1]) && steps[k].yields(outs[k]));
    }
    assert forall|k: int|
        0 <= k < outs.len() implies (#[trigger] outs[k] matches Some(i) ==> i.decoded_from(
        buf.raw()[k],
        buf.decode_detail(),
        buf.arch(),
    )) by {
        assert(steps[k].stepped_to(steps[k + 1]) && steps[k].yields(outs[k]));
    }
    assert forall|j: int, k: int|
        0 <= j <= k < outs.len() && #[trigger] outs[j] is None implies #[trigger] outs[k]
        is None by {
        assert(steps[j].stepped_to(steps[j + 1]) && steps[j].yields(outs[j]));
        assert(steps[k].stepped_to(steps[k + 1]) && steps[k].yields(outs[k]));
    }
}

/// Each step of an iteration from the start is over the same buffer, at the
/// index of the step.
proof fn lemma_steps_count_up<'a>(
    steps: Seq<InstrIter<'a>>,
    outs: Seq<Option<Instr>>,
    buf: InstrBuf,
)
    requires
        steps.len() == outs.len() + 1,
        steps[0].buf() == buf,
        steps[0].current() == 0,
        forall|k: int|
            0 <= k < outs.len() ==> #[trigger] steps[k].stepped_to(steps[k + 1])
                && steps[k].yields(outs[k]),
    ensures
        forall|k: int| 0 <= k < steps.len() ==> #[trigger] steps[k].current() == k
            && steps[k].buf() == buf,
    decreases outs.len(),
{
    if outs.len() > 0 {
        let n = outs.len() as int;
        let s = steps.drop_last();
        let o = outs.drop_last();
        assert forall|k: int| 0 <= k < o.len() implies #[trigger] s[k].stepped_to(s[k + 1])
            && s[k].yields(o[k]) by {
            assert(steps[k].stepped_to(steps[k + 1]) && steps[k].yields(outs[k]));
        }
        lemma_steps_count_up(s, o, buf);
        assert(steps[n - 1].stepped_to(steps[n]));
        assert forall|k: int| 0 <= k < steps.len() implies #[trigger] steps[k].current() == k
            && steps[k].buf() == buf by {
            if k < n {
                assert(s[k] == steps[k]);
                assert(s[k].current() == k);
            } else {
                assert(s[n - 1] == steps[n - 1]);
                assert(s[n - 1].current() == n - 1);
            }
        }
    }
}

/// A decoded instruction's id is the record's numeric id, in the variant
/// named after the architecture it was decoded for.
pub proof fn lemma_decoded_id_names_arch(i: Instr, raw: RawInsn, decode_detail: bool, arch: Arch)
    requires
        i.decoded_from(raw, decode_detail, arch),
    ensures
        arch == Arch::X86 ==> i.id == InstrIdArch::X86(raw.id),
        arch == Arch::ARM64 ==> i.id == InstrIdArch::ARM64(raw.id),
        arch == Arch::ARM ==> i.id == InstrIdArch::ARM(raw.id),
        arch == Arch::MIPS ==> i.id == InstrIdArch::MIPS(raw.id),
        arch == Arch::PPC ==> i.id == InstrIdArch::PPC(raw.id),
        arch == Arch::SPARC ==> i.id == InstrIdArch::SPARC(raw.id),
        arch == Arch::SYSZ ==> i.id == InstrIdArch::SYSZ(raw.id),
        arch == Arch::XCORE ==> i.id == InstrIdArch::XCORE(raw.id),
        arch == Arch::M68K ==> i.id == InstrIdArch::M68K(raw.id),
        arch == Arch::TMS320C64X ==> i.id == InstrIdArch::TMS320C64X(raw.id),
        arch == Arch::M680X ==> i.id == InstrIdArch::M680X(raw.id),
        arch == Arch::EVM ==> i.id == InstrIdArch::EVM(raw.id),
{
}

/// A decoded instruction keeps the record's 64-bit address, its size and its
/// machine bytes unchanged.
pub proof fn lemma_decoded_keeps_address_size_bytes(
    i: Instr,
    raw: RawInsn,
    decode_detail: bool,
    arch: Arch,
)
    requires
        i.decoded_from(raw, decode_detail, arch),
    ensures
        i.address == raw.address,
        i.size == raw.size,
        i.bytes@.len() == raw.bytes@.len(),
        forall|k: int| 0 <= k < i.bytes@.len() ==> #[trigger] i.bytes@[k] == raw.bytes@[k],
{
}

/// A decoded instruction's mnemonic and operand text are the bytes of the
/// record's arrays before their first NUL, each character having the byte's
/// value as its code point.
pub proof fn lemma_decoded_text_is_bytes(i: Instr, raw: RawInsn, decode_detail: bool, arch: Arch)
    requires
        i.decoded_from(raw, decode_detail, arch),
    ensures
        i.mnemonic@.len() == c_str_len(raw.mnemonic@),
        i.mnemonic@.len() <= raw.mnemonic@.len(),
        i.mnemonic@.len() < raw.mnemonic@.len() ==> raw.mnemonic@[i.mnemonic@.len() as int] == 0,
        forall|k: int|
            0 <= k < i.mnemonic@.len() ==> raw.mnemonic@[k] != 0 && (#[trigger] i.mnemonic@[k]) as u32
                == raw.mnemonic@[k] as u32,
        i.op_str@.len() == c_str_len(raw.op_str@),
        i.op_str@.len() <= raw.op_str@.len(),
        i.op_str@.len() < raw.op_str@.len() ==> raw.op_str@[i.op_str@.len() as int] == 0,
        forall|k: int|
            0 <= k < i.op_str@.len() ==> raw.op_str@[k] != 0 && (#[trigger] i.op_str@[k]) as u32
                == raw.op_str@[k] as u32,
{
    lemma_c_text_is_bytes(raw.mnemonic@);
    lemma_c_text_is_bytes(raw.op_str@);
    lemma_c_str_len(raw.mnemonic@);
    lemma_c_str_len(raw.op_str@);
}

/// With details on, a decoded instruction's register and group lists hold
/// exactly the in-use entries of the record's arrays, each with its numeric
/// value unchanged and each list counted by its own count, and the
/// architecture-specific record is the record's own.
pub proof fn lemma_decoded_details_keep_values(i: Instr, raw: RawInsn, arch: Arch, rd: RawDetail)
    requires
        i.decoded_from(raw, true, arch),
        raw.detail == Some(rd),
        rd.counts_in_bounds(),
    ensures
        i.detail is Some,
        i.detail.unwrap().regs_read@.len() == rd.regs_read_count,
        forall|k: int|
            0 <= k < rd.regs_read_count ==> (#[trigger] i.detail.unwrap().regs_read@[k]) as int
                == rd.regs_read@[k] as int,
        i.detail.unwrap().regs_write@.len() == rd.regs_write_count,
        forall|k: int|
            0 <= k < rd.regs_write_count ==> (#[trigger] i.detail.unwrap().regs_write@[k]) as int
                == rd.regs_write@[k] as int,
        i.detail.unwrap().groups@.len() == rd.groups_count,
        forall|k: int|
            0 <= k < rd.groups_count ==> (#[trigger] i.detail.unwrap().groups@[k]) as int
                == rd.groups@[k] as int,
        i.detail.unwrap().arch == rd.arch,
{
}

} // verus!
