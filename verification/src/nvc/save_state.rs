//! The CPU's state as bytes, to keep and to bring back.
//!
//! The bytes hold 61 words, lowest byte first: the 32 general-purpose
//! registers; the program counter, EIPC, EIPSW, FEPC, FEPSW, ECR and CHCW;
//! the fourteen flags of the status word, a word each that is 0 or 1; the
//! interrupt mask level; a word that says whether the CPU is halted; a word
//! for the pending interrupt: its vector with bit 16 set, or 0 for none; and
//! five words for a floating-point instruction that waits for its answer:
//! whether there is one, its sub-opcode, its register and its two operands.
//! Watchpoints belong to the debugger and are not kept.

use vstd::prelude::*;
use crate::bits::lemma_word_of_bytes;
use crate::instruction::subop_of_bits;
use crate::instruction::Opcode;
use crate::instruction::SubOp;
use crate::nvc::psw::Psw;
use crate::nvc::float::is_float_subop;
use crate::nvc::float::FloatRequest;
use crate::nvc::state::NvcState;
use crate::nvc::state::GPR_COUNT;
use crate::nvc::Nvc;

verus! {

pub const SAVED_WORDS: usize = 61;
pub const SAVED_BYTES: usize = 244;

pub const PENDING_FLAG: u32 = 0x0001_0000;

/// The word that stands for a flag.
pub open spec fn flag_word(flag: bool) -> u32 {
    if flag {
        1
    } else {
        0
    }
}

/// The word that stands for a pending interrupt.
pub open spec fn pending_word(pending: Option<u16>) -> u32 {
    match pending {
        Some(vector) => (PENDING_FLAG + vector) as u32,
        None => 0,
    }
}

/// Word `index` of the words that a state is kept as.
pub open spec fn saved_word_of(cpu: NvcState, index: int) -> u32 {
    if index < 32 {
        cpu.gpr[index]
    } else if index == 32 {
        cpu.pc
    } else if index == 33 {
        cpu.eipc
    } else if index == 34 {
        cpu.eipsw
    } else if index == 35 {
        cpu.fepc
    } else if index == 36 {
        cpu.fepsw
    } else if index == 37 {
        cpu.ecr
    } else if index == 38 {
        cpu.chcw
    } else if index == 39 {
        flag_word(cpu.psw.zero)
    } else if index == 40 {
        flag_word(cpu.psw.sign)
    } else if index == 41 {
        flag_word(cpu.psw.overflow)
    } else if index == 42 {
        flag_word(cpu.psw.carry)
    } else if index == 43 {
        flag_word(cpu.psw.fp_precision_degradation)
    } else if index == 44 {
        flag_word(cpu.psw.fp_underflow)
    } else if index == 45 {
        flag_word(cpu.psw.fp_overflow)
    } else if index == 46 {
        flag_word(cpu.psw.fp_zero_division)
    } else if index == 47 {
        flag_word(cpu.psw.fp_invalid_operation)
    } else if index == 48 {
        flag_word(cpu.psw.fp_reserved_operand)
    } else if index == 49 {
        flag_word(cpu.psw.interrupt_disable)
    } else if index == 50 {
        flag_word(cpu.psw.address_trap_enable)
    } else if index == 51 {
        flag_word(cpu.psw.exception_pending)
    } else if index == 52 {
        flag_word(cpu.psw.nmi_pending)
    } else if index == 53 {
        cpu.psw.interrupt_mask_level as u32
    } else if index == 54 {
        flag_word(cpu.halted)
    } else if index == 55 {
        pending_word(cpu.pending_interrupt)
    } else if index == 56 {
        flag_word(cpu.float_request is Some)
    } else {
        match cpu.float_request {
            Some(request) => if index == 57 {
                request.subop.code() as u32
            } else if index == 58 {
                request.reg2 as u32
            } else if index == 59 {
                request.destination
            } else {
                request.source
            },
            None => 0,
        }
    }
}

/// The words that a state is kept as.
pub open spec fn saved_words(cpu: NvcState) -> Seq<u32> {
    Seq::new(SAVED_WORDS as nat, |index: int| saved_word_of(cpu, index))
}

/// Byte `index` of a word, lowest first.
pub open spec fn byte_of_word(word: u32, index: int) -> u8 {
    if index == 0 {
        word as u8
    } else if index == 1 {
        (word >> 8) as u8
    } else if index == 2 {
        (word >> 16) as u8
    } else {
        (word >> 24) as u8
    }
}

/// Words as bytes, each word lowest byte first.
pub open spec fn bytes_of_words(words: Seq<u32>) -> Seq<u8> {
    Seq::new(4 * words.len(), |i: int| byte_of_word(words[i / 4], i % 4))
}

/// The word that four bytes write, lowest byte first.
pub open spec fn word_of_bytes(bytes: Seq<u8>, at: int) -> u32 {
    (bytes[at] as u32) | ((bytes[at + 1] as u32) << 8) | ((bytes[at + 2] as u32) << 16) | ((
    bytes[at + 3] as u32) << 24)
}

/// Saved word `index` of the bytes.
pub open spec fn saved_word(bytes: Seq<u8>, index: int) -> u32 {
    word_of_bytes(bytes, 4 * index)
}

/// The bytes that a state is kept as.
pub open spec fn saved(cpu: NvcState) -> Seq<u8> {
    bytes_of_words(saved_words(cpu))
}

/// The floating-point instruction that the bytes hold.
pub open spec fn restored_request(bytes: Seq<u8>) -> Option<FloatRequest> {
    if saved_word(bytes, 56) == 1 {
        match subop_of_bits(saved_word(bytes, 57) as usize) {
            Some(subop) => Some(
                FloatRequest {
                    subop,
                    reg2: saved_word(bytes, 58) as usize,
                    destination: saved_word(bytes, 59),
                    source: saved_word(bytes, 60),
                },
            ),
            None => None,
        }
    } else {
        None
    }
}

/// Whether bytes are the bytes of a well-formed state: r0 is 0, the program
/// counter even, every flag 0 or 1, the mask level at most 15, and a waiting
/// floating-point instruction one for the float unit, with a register.
pub open spec fn restorable(bytes: Seq<u8>) -> bool {
    &&& bytes.len() == SAVED_BYTES
    &&& saved_word(bytes, 0) == 0
    &&& saved_word(bytes, 32) % 2 == 0
    &&& forall|index: int| 39 <= index < 53 ==> #[trigger] saved_word(bytes, index) <= 1
    &&& saved_word(bytes, 53) <= 15
    &&& saved_word(bytes, 54) <= 1
    &&& (saved_word(bytes, 55) == 0 || PENDING_FLAG <= saved_word(bytes, 55) <= PENDING_FLAG
        + 0xffff)
    &&& saved_word(bytes, 56) <= 1
    &&& (saved_word(bytes, 56) == 1 ==> (restored_request(bytes) matches Some(request)
        && is_float_subop(request.subop) && saved_word(bytes, 58) < GPR_COUNT))
}

/// The status word that the bytes hold.
pub open spec fn restored_psw(bytes: Seq<u8>) -> Psw {
    Psw {
        zero: saved_word(bytes, 39) == 1,
        sign: saved_word(bytes, 40) == 1,
        overflow: saved_word(bytes, 41) == 1,
        carry: saved_word(bytes, 42) == 1,
        fp_precision_degradation: saved_word(bytes, 43) == 1,
        fp_underflow: saved_word(bytes, 44) == 1,
        fp_overflow: saved_word(bytes, 45) == 1,
        fp_zero_division: saved_word(bytes, 46) == 1,
        fp_invalid_operation: saved_word(bytes, 47) == 1,
        fp_reserved_operand: saved_word(bytes, 48) == 1,
        interrupt_disable: saved_word(bytes, 49) == 1,
        address_trap_enable: saved_word(bytes, 50) == 1,
        exception_pending: saved_word(bytes, 51) == 1,
        nmi_pending: saved_word(bytes, 52) == 1,
        interrupt_mask_level: saved_word(bytes, 53) as u8,
    }
}

/// The state that bytes bring back, with the given watchpoints: none where
/// the bytes are not the bytes of a well-formed state.
pub open spec fn restored(bytes: Seq<u8>, watchpoints: Set<u32>) -> Option<NvcState> {
    if restorable(bytes) {
        Some(
            NvcState {
                gpr: Seq::new(GPR_COUNT as nat, |i: int| saved_word(bytes, i)),
                pc: saved_word(bytes, 32),
                psw: restored_psw(bytes),
                eipc: saved_word(bytes, 33),
                eipsw: saved_word(bytes, 34),
                fepc: saved_word(bytes, 35),
                fepsw: saved_word(bytes, 36),
                ecr: saved_word(bytes, 37),
                chcw: saved_word(bytes, 38),
                halted: saved_word(bytes, 54) == 1,
                pending_interrupt: if saved_word(bytes, 55) == 0 {
                    None
                } else {
                    Some((saved_word(bytes, 55) - PENDING_FLAG) as u16)
                },
                float_request: restored_request(bytes),
                watchpoints,
            },
        )
    } else {
        None
    }
}

/// A word comes back from its bytes.
pub proof fn lemma_word_round_trip(words: Seq<u32>, index: int)
    requires
        0 <= index < words.len(),
    ensures
        saved_word(bytes_of_words(words), index) == words[index],
{
    lemma_word_of_bytes(words[index]);
}

/// A state that was kept comes back as it was, whatever the watchpoints
/// are.
pub proof fn lemma_save_restore(cpu: NvcState)
    requires
        cpu.wf(),
    ensures
        restored(saved(cpu), cpu.watchpoints) == Some(cpu),
{
    let words = saved_words(cpu);
    let bytes = saved(cpu);
    assert forall|index: int| 0 <= index < SAVED_WORDS implies #[trigger] saved_word(bytes, index)
        == saved_word_of(cpu, index) by {
        lemma_word_round_trip(words, index);
    }
    lemma_psw_restored(cpu, bytes);
    lemma_request_restored(cpu, bytes);
    lemma_registers_restored(cpu, bytes);
}

/// The registers, the halted flag and the pending interrupt come back from
/// their words, and with the status word and the waiting instruction the
/// whole state.
proof fn lemma_registers_restored(cpu: NvcState, bytes: Seq<u8>)
    requires
        cpu.wf(),
        bytes.len() == SAVED_BYTES,
        forall|index: int|
            0 <= index < SAVED_WORDS ==> #[trigger] saved_word(bytes, index) == saved_word_of(
                cpu,
                index,
            ),
        restored_psw(bytes) == cpu.psw,
        restored_request(bytes) == cpu.float_request,
        saved_word(bytes, 56) <= 1,
        saved_word(bytes, 56) == 1 ==> (restored_request(bytes) matches Some(request)
            && is_float_subop(request.subop) && saved_word(bytes, 58) < GPR_COUNT),
    ensures
        restored(bytes, cpu.watchpoints) == Some(cpu),
{
    assert(saved_word(bytes, 0) == saved_word_of(cpu, 0));
    assert(saved_word(bytes, 32) == saved_word_of(cpu, 32));
    assert(saved_word(bytes, 33) == saved_word_of(cpu, 33));
    assert(saved_word(bytes, 34) == saved_word_of(cpu, 34));
    assert(saved_word(bytes, 35) == saved_word_of(cpu, 35));
    assert(saved_word(bytes, 36) == saved_word_of(cpu, 36));
    assert(saved_word(bytes, 37) == saved_word_of(cpu, 37));
    assert(saved_word(bytes, 38) == saved_word_of(cpu, 38));
    assert(saved_word(bytes, 53) == saved_word_of(cpu, 53));
    assert(saved_word(bytes, 54) == saved_word_of(cpu, 54));
    assert(saved_word(bytes, 55) == saved_word_of(cpu, 55));
    assert forall|index: int| 39 <= index < 53 implies #[trigger] saved_word(bytes, index)
        <= 1 by {
        assert(saved_word(bytes, index) == saved_word_of(cpu, index));
    }
    assert(restorable(bytes));
    let back = restored(bytes, cpu.watchpoints)->Some_0;
    assert(back.gpr =~= cpu.gpr) by {
        assert forall|i: int| 0 <= i < GPR_COUNT implies back.gpr[i] == cpu.gpr[i] by {
            assert(saved_word(bytes, i) == saved_word_of(cpu, i));
        }
    }
    assert(back.pending_interrupt == cpu.pending_interrupt);
    assert(back.halted == cpu.halted);
}

/// The waiting floating-point instruction comes back from its words.
proof fn lemma_request_restored(cpu: NvcState, bytes: Seq<u8>)
    requires
        cpu.wf(),
        forall|index: int|
            56 <= index < SAVED_WORDS ==> #[trigger] saved_word(bytes, index) == saved_word_of(
                cpu,
                index,
            ),
    ensures
        restored_request(bytes) == cpu.float_request,
        saved_word(bytes, 56) <= 1,
        saved_word(bytes, 56) == 1 ==> (restored_request(bytes) matches Some(request)
            && is_float_subop(request.subop) && saved_word(bytes, 58) < GPR_COUNT),
{
    assert(saved_word(bytes, 56) == saved_word_of(cpu, 56));
    assert(saved_word(bytes, 57) == saved_word_of(cpu, 57));
    assert(saved_word(bytes, 58) == saved_word_of(cpu, 58));
    assert(saved_word(bytes, 59) == saved_word_of(cpu, 59));
    assert(saved_word(bytes, 60) == saved_word_of(cpu, 60));
    match cpu.float_request {
        Some(request) => {
            assert(subop_of_bits(request.subop.code()) == Some(request.subop));
        },
        None => {},
    }
}

/// The status word comes back from its words.
proof fn lemma_psw_restored(cpu: NvcState, bytes: Seq<u8>)
    requires
        cpu.psw.interrupt_mask_level <= 15,
        forall|index: int|
            39 <= index < 54 ==> #[trigger] saved_word(bytes, index) == saved_word_of(cpu, index),
    ensures
        restored_psw(bytes) == cpu.psw,
{
    let back = restored_psw(bytes);
    assert(saved_word(bytes, 39) == saved_word_of(cpu, 39));
    assert(saved_word(bytes, 40) == saved_word_of(cpu, 40));
    assert(saved_word(bytes, 41) == saved_word_of(cpu, 41));
    assert(saved_word(bytes, 42) == saved_word_of(cpu, 42));
    assert(saved_word(bytes, 43) == saved_word_of(cpu, 43));
    assert(saved_word(bytes, 44) == saved_word_of(cpu, 44));
    assert(saved_word(bytes, 45) == saved_word_of(cpu, 45));
    assert(saved_word(bytes, 46) == saved_word_of(cpu, 46));
    assert(saved_word(bytes, 47) == saved_word_of(cpu, 47));
    assert(saved_word(bytes, 48) == saved_word_of(cpu, 48));
    assert(saved_word(bytes, 49) == saved_word_of(cpu, 49));
    assert(saved_word(bytes, 50) == saved_word_of(cpu, 50));
    assert(saved_word(bytes, 51) == saved_word_of(cpu, 51));
    assert(saved_word(bytes, 52) == saved_word_of(cpu, 52));
    assert(saved_word(bytes, 53) == saved_word_of(cpu, 53));
}

fn push_word(bytes: &mut Vec<u8>, word: u32)
    ensures
        final(bytes)@ == old(bytes)@.push(word as u8).push((word >> 8) as u8).push(
            (word >> 16) as u8,
        ).push((word >> 24) as u8),
{
    bytes.push(word as u8);
    bytes.push((word >> 8) as u8);
    bytes.push((word >> 16) as u8);
    bytes.push((word >> 24) as u8);
}

fn read_word(bytes: &Vec<u8>, index: usize) -> (word: u32)
    requires
        4 * index + 4 <= bytes.len(),
    ensures
        word == saved_word(bytes@, index as int),
{
    let at = 4 * index;
    (bytes[at] as u32) | ((bytes[at + 1] as u32) << 8) | ((bytes[at + 2] as u32) << 16) | ((bytes[at
        + 3] as u32) << 24)
}

/// The floating-point operation that a saved sub-opcode names.
fn read_subop(code: u32) -> (r: Option<SubOp>)
    ensures
        r == (match subop_of_bits(code as usize) {
            Some(subop) => if is_float_subop(subop) {
                Some(subop)
            } else {
                None
            },
            None => None,
        }),
{
    let opcode = Opcode::Extended;
    match opcode.subop(code as usize) {
        Ok(SubOp::Xb) => None,
        Ok(SubOp::Xh) => None,
        Ok(SubOp::Mpyhw) => None,
        Ok(subop) => Some(subop),
        Err(_) => None,
    }
}

fn read_psw(bytes: &Vec<u8>) -> (r: Option<Psw>)
    requires
        bytes.len() == SAVED_BYTES,
    ensures
        r is Some <==> (forall|index: int|
            39 <= index < 53 ==> #[trigger] saved_word(bytes@, index) <= 1) && saved_word(
            bytes@,
            53,
        ) <= 15,
        r matches Some(psw) ==> psw == restored_psw(bytes@) && psw.interrupt_mask_level <= 15,
{
    let mut index: usize = 39;
    while index < 53
        invariant
            bytes.len() == SAVED_BYTES,
            39 <= index <= 53,
            forall|i: int| 39 <= i < index ==> #[trigger] saved_word(bytes@, i) <= 1,
        decreases 53 - index,
    {
        if read_word(bytes, index) > 1 {
            return None;
        }
        index = index + 1;
    }
    let level = read_word(bytes, 53);
    if level > 15 {
        return None;
    }
    Some(
        Psw {
            zero: read_word(bytes, 39) == 1,
            sign: read_word(bytes, 40) == 1,
            overflow: read_word(bytes, 41) == 1,
            carry: read_word(bytes, 42) == 1,
            fp_precision_degradation: read_word(bytes, 43) == 1,
            fp_underflow: read_word(bytes, 44) == 1,
            fp_overflow: read_word(bytes, 45) == 1,
            fp_zero_division: read_word(bytes, 46) == 1,
            fp_invalid_operation: read_word(bytes, 47) == 1,
            fp_reserved_operand: read_word(bytes, 48) == 1,
            interrupt_disable: read_word(bytes, 49) == 1,
            address_trap_enable: read_word(bytes, 50) == 1,
            exception_pending: read_word(bytes, 51) == 1,
            nmi_pending: read_word(bytes, 52) == 1,
            interrupt_mask_level: level as u8,
        },
    )
}

impl Nvc {
    /// Word `index` of the words that the state is kept as.
    fn word_to_save(&self, index: usize) -> (word: u32)
        requires
            self@.wf(),
            index < SAVED_WORDS,
        ensures
            word == saved_word_of(self@, index as int),
    {
        let psw = self.status();
        if index < 32 {
            self.reg_gpr(index)
        } else if index == 32 {
            self.reg_pc()
        } else if index == 33 {
            self.reg_eipc()
        } else if index == 34 {
            self.reg_eipsw()
        } else if index == 35 {
            self.system_word(4)
        } else if index == 36 {
            self.system_word(5)
        } else if index == 37 {
            self.reg_ecr()
        } else if index == 38 {
            self.system_word(7)
        } else if index == 53 {
            psw.interrupt_mask_level as u32
        } else if index == 55 {
            self.pending_word()
        } else if index >= 57 {
            match self.float_request() {
                Some(request) => {
                    if index == 57 {
                        request.subop.bits() as u32
                    } else if index == 58 {
                        request.reg2 as u32
                    } else if index == 59 {
                        request.destination
                    } else {
                        request.source
                    }
                },
                None => 0,
            }
        } else {
            let flag = if index == 39 {
                psw.zero
            } else if index == 40 {
                psw.sign
            } else if index == 41 {
                psw.overflow
            } else if index == 42 {
                psw.carry
            } else if index == 43 {
                psw.fp_precision_degradation
            } else if index == 44 {
                psw.fp_underflow
            } else if index == 45 {
                psw.fp_overflow
            } else if index == 46 {
                psw.fp_zero_division
            } else if index == 47 {
                psw.fp_invalid_operation
            } else if index == 48 {
                psw.fp_reserved_operand
            } else if index == 49 {
                psw.interrupt_disable
            } else if index == 50 {
                psw.address_trap_enable
            } else if index == 51 {
                psw.exception_pending
            } else if index == 52 {
                psw.nmi_pending
            } else if index == 54 {
                self.is_halted()
            } else {
                self.float_request().is_some()
            };
            if flag {
                1
            } else {
                0
            }
        }
    }

    /// The CPU's state as bytes.
    pub fn save_state(&self) -> (bytes: Vec<u8>)
        requires
            self@.wf(),
        ensures
            bytes@ == saved(self@),
    {
        let ghost words = saved_words(self@);
        let mut bytes: Vec<u8> = Vec::with_capacity(SAVED_BYTES);
        let mut k: usize = 0;
        while k < SAVED_WORDS
            invariant
                self@.wf(),
                k <= SAVED_WORDS,
                words == saved_words(self@),
                bytes.len() == 4 * k,
                forall|i: int| 0 <= i < 4 * k ==> bytes@[i] == byte_of_word(words[i / 4], i % 4),
            decreases SAVED_WORDS - k,
        {
            let ghost before = bytes@;
            push_word(&mut bytes, self.word_to_save(k));
            assert forall|i: int| 0 <= i < 4 * (k + 1) implies bytes@[i] == byte_of_word(
                words[i / 4],
                i % 4,
            ) by {
                if i < 4 * k {
                    assert(bytes@[i] == before[i]);
                } else {
                    assert(i / 4 == k);
                }
            }
            k = k + 1;
        }
        assert(bytes@ =~= saved(self@));
        bytes
    }

    /// Brings back a state that was kept; the watchpoints stay. Bytes that
    /// are not the bytes of a state are refused, and the CPU stays as it is.
    pub fn restore_state(&mut self, bytes: &Vec<u8>) -> (r: bool)
        requires
            old(self)@.wf(),
        ensures
            final(self)@.wf(),
            match restored(bytes@, old(self)@.watchpoints) {
                Some(cpu) => r && final(self)@ == cpu,
                None => !r && final(self)@ == old(self)@,
            },
    {
        if bytes.len() != SAVED_BYTES {
            return false;
        }
        let pc = read_word(bytes, 32);
        let halted = read_word(bytes, 54);
        let pending = read_word(bytes, 55);
        if read_word(bytes, 0) != 0 || pc % 2 != 0 || halted > 1 || !(pending == 0 || (
        PENDING_FLAG <= pending && pending <= PENDING_FLAG + 0xffff)) {
            return false;
        }
        let psw = match read_psw(bytes) {
            Some(psw) => psw,
            None => {
                return false;
            },
        };
        let request_word = read_word(bytes, 56);
        if request_word > 1 {
            return false;
        }
        let float_request = if request_word == 1 {
            let reg2 = read_word(bytes, 58);
            match read_subop(read_word(bytes, 57)) {
                Some(subop) => {
                    if reg2 >= 32 {
                        return false;
                    }
                    Some(
                        FloatRequest {
                            subop,
                            reg2: reg2 as usize,
                            destination: read_word(bytes, 59),
                            source: read_word(bytes, 60),
                        },
                    )
                },
                None => {
                    return false;
                },
            }
        } else {
            None
        };
        let mut gpr: Vec<u32> = Vec::with_capacity(GPR_COUNT);
        let mut i: usize = 0;
        while i < GPR_COUNT
            invariant
                bytes.len() == SAVED_BYTES,
                i <= GPR_COUNT,
                gpr.len() == i,
                forall|j: int| 0 <= j < i ==> gpr@[j] == saved_word(bytes@, j),
            decreases GPR_COUNT - i,
        {
            gpr.push(read_word(bytes, i));
            i = i + 1;
        }
        assert(gpr@ =~= Seq::new(GPR_COUNT as nat, |i: int| saved_word(bytes@, i)));
        self.load(
            gpr,
            pc,
            psw,
            [
                read_word(bytes, 33),
                read_word(bytes, 34),
                read_word(bytes, 35),
                read_word(bytes, 36),
                read_word(bytes, 37),
                read_word(bytes, 38),
            ],
            halted == 1,
            if pending == 0 {
                None
            } else {
                Some((pending - PENDING_FLAG) as u16)
            },
            float_request,
        );
        true
    }
}

} // verus!
