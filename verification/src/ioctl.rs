//! The kernel's GPIO character-device interface: request codes, the chip
//! descriptor, and the scan for the SoC's pin controller.

use crate::gpio::Error;
use crate::sys::{
    is_permission_denied, no_entry_code, os_error, permission_denied, raw_os_code, NO_ENTRY,
};
use crate::text::{cbuf_to_string, decimal, decoded, push_decimal};
use vstd::prelude::*;
use vstd::string::{StrSliceExecFns, StringExecFns};

verus! {

/// Prefix of the device nodes: node `N` is at `/dev/gpiochipN`.
pub const PATH_GPIOCHIP: &'static str = "/dev/gpiochip";

/// Width in bits of the command-number field of a request code.
pub const NRBITS: u32 = 8;

/// Width in bits of the type field.
pub const TYPEBITS: u32 = 8;

/// Width in bits of the payload-size field.
pub const SIZEBITS: u32 = 14;

/// Width in bits of the direction field.
pub const DIRBITS: u32 = 2;

/// Position of the command-number field.
pub const NRSHIFT: u32 = 0;

/// Position of the type field.
pub const TYPESHIFT: u32 = 8;

/// Position of the payload-size field.
pub const SIZESHIFT: u32 = 16;

/// Position of the direction field.
pub const DIRSHIFT: u32 = 30;

/// The largest payload size that a request code can hold.
pub const SIZE_MAX: u16 = 0x3fff;

/// Type byte of the GPIO subsystem.
pub const TYPE_GPIO: u8 = 0xB4;

pub const NR_GET_CHIP_INFO: u8 = 0x01;

pub const NR_GET_LINE_INFO: u8 = 0x05;

pub const NR_GET_LINE_INFO_WATCH: u8 = 0x06;

pub const NR_GET_LINE_INFO_UNWATCH: u8 = 0x0C;

pub const NR_GET_LINE: u8 = 0x07;

pub const NR_LINE_SET_CONFIG: u8 = 0x0D;

pub const NR_LINE_GET_VALUES: u8 = 0x0E;

pub const NR_LINE_SET_VALUES: u8 = 0x0F;

/// Length of the name buffer of a chip descriptor.
pub const NAME_BUFSIZE: usize = 32;

/// Length of the label buffer of a chip descriptor.
pub const LABEL_BUFSIZE: usize = 32;

/// Size in bytes of the kernel's chip descriptor: two buffers of 32 bytes
/// and a 32-bit line count.
pub const CHIP_INFO_SIZE: u16 = 68;

/// The request code that asks a GPIO device for its chip descriptor.
pub const REQ_GET_CHIP_INFO: u32 = 0x8044_B401;

/// Which way the payload of a request travels, seen from user space.
#[derive(Debug, PartialEq, Eq, Copy, Clone, Structural)]
pub enum Direction {
    /// The request has no payload.
    NoData,
    /// User space writes the payload.
    Write,
    /// User space reads the payload.
    Read,
    /// The payload travels both ways.
    ReadWrite,
}

impl Direction {
    /// The two-bit code of the direction.
    pub open spec fn spec_bits(self) -> u32 {
        match self {
            Direction::NoData => 0,
            Direction::Write => 1,
            Direction::Read => 2,
            Direction::ReadWrite => 3,
        }
    }

    /// Returns the two-bit code of the direction.
    pub fn bits(self) -> (code: u32)
        ensures
            code == self.spec_bits(),
    {
        match self {
            Direction::NoData => 0,
            Direction::Write => 1,
            Direction::Read => 2,
            Direction::ReadWrite => 3,
        }
    }
}

/// The request code with the given fields: the command number in bits 0
/// to 7, the type in bits 8 to 15, the payload size in bits 16 to 29 and
/// the direction in bits 30 and 31.
pub open spec fn request_code(dir: Direction, ty: u8, nr: u8, size: u16) -> u32 {
    (dir.spec_bits() << 30) | ((size as u32) << 16) | ((ty as u32) << 8) | (nr as u32)
}

/// The direction field of a request code.
pub open spec fn dir_field(code: u32) -> u32 {
    code >> 30
}

/// The payload-size field of a request code.
pub open spec fn size_field(code: u32) -> u32 {
    (code >> 16) & 0x3fff
}

/// The type field of a request code.
pub open spec fn type_field(code: u32) -> u32 {
    (code >> 8) & 0xff
}

/// The command-number field of a request code.
pub open spec fn nr_field(code: u32) -> u32 {
    code & 0xff
}

/// Builds the request code of a device-control call from its four fields.
pub fn ioctl_request(dir: Direction, ty: u8, nr: u8, size: u16) -> (code: u32)
    requires
        size <= SIZE_MAX,
    ensures
        code == request_code(dir, ty, nr, size),
        dir_field(code) == dir.spec_bits(),
        size_field(code) == size,
        type_field(code) == ty,
        nr_field(code) == nr,
{
    proof {
        lemma_request_fields(dir, ty, nr, size);
    }
    (dir.bits() << DIRSHIFT) | ((size as u32) << SIZESHIFT) | ((ty as u32) << TYPESHIFT) | (
    nr as u32)
}

/// Returns the request code that asks a GPIO device for its chip
/// descriptor: a read of `CHIP_INFO_SIZE` bytes, command 1 of the GPIO
/// subsystem.
pub fn get_chip_info_request() -> (code: u32)
    ensures
        code == REQ_GET_CHIP_INFO,
        code == request_code(Direction::Read, TYPE_GPIO, NR_GET_CHIP_INFO, CHIP_INFO_SIZE),
{
    proof {
        lemma_get_chip_info_request();
    }
    ioctl_request(Direction::Read, TYPE_GPIO, NR_GET_CHIP_INFO, CHIP_INFO_SIZE)
}

/// Each field of a request code is the value it was built from.
pub proof fn lemma_request_fields(dir: Direction, ty: u8, nr: u8, size: u16)
    requires
        size <= SIZE_MAX,
    ensures
        dir_field(request_code(dir, ty, nr, size)) == dir.spec_bits(),
        size_field(request_code(dir, ty, nr, size)) == size,
        type_field(request_code(dir, ty, nr, size)) == ty,
        nr_field(request_code(dir, ty, nr, size)) == nr,
{
    let d: u32 = dir.spec_bits();
    let s: u32 = size as u32;
    let t: u32 = ty as u32;
    let n: u32 = nr as u32;
    assert({
        let code: u32 = (d << 30) | (s << 16) | (t << 8) | n;
        &&& code >> 30 == d
        &&& (code >> 16) & 0x3fff == s
        &&& (code >> 8) & 0xff == t
        &&& code & 0xff == n
    }) by (bit_vector)
        requires
            d < 4,
            s <= 0x3fff,
            t < 256,
            n < 256,
    ;
}

/// A change of the payload size changes the size field of the request
/// code and nothing else: the other three fields stay, and so does every
/// bit outside the size field.
pub proof fn lemma_size_changes_size_field_only(
    dir: Direction,
    ty: u8,
    nr: u8,
    size_a: u16,
    size_b: u16,
)
    requires
        size_a <= SIZE_MAX,
        size_b <= SIZE_MAX,
    ensures
        dir_field(request_code(dir, ty, nr, size_a)) == dir_field(
            request_code(dir, ty, nr, size_b),
        ),
        type_field(request_code(dir, ty, nr, size_a)) == type_field(
            request_code(dir, ty, nr, size_b),
        ),
        nr_field(request_code(dir, ty, nr, size_a)) == nr_field(request_code(dir, ty, nr, size_b)),
        request_code(dir, ty, nr, size_a) & 0xc000_ffff == request_code(dir, ty, nr, size_b)
            & 0xc000_ffff,
        size_field(request_code(dir, ty, nr, size_a)) == size_a,
        size_field(request_code(dir, ty, nr, size_b)) == size_b,
        size_a != size_b ==> request_code(dir, ty, nr, size_a) != request_code(
            dir,
            ty,
            nr,
            size_b,
        ),
{
    lemma_request_fields(dir, ty, nr, size_a);
    lemma_request_fields(dir, ty, nr, size_b);
    let d: u32 = dir.spec_bits();
    let a: u32 = size_a as u32;
    let b: u32 = size_b as u32;
    let t: u32 = ty as u32;
    let n: u32 = nr as u32;
    assert(((d << 30) | (a << 16) | (t << 8) | n) & 0xc000_ffff == ((d << 30) | (b << 16) | (t
        << 8) | n) & 0xc000_ffff) by (bit_vector)
        requires
            a <= 0x3fff,
            b <= 0x3fff,
    ;
}

/// The chip-info request code is the code of a read of 68 bytes, command 1
/// of the GPIO subsystem.
pub proof fn lemma_get_chip_info_request()
    ensures
        request_code(Direction::Read, TYPE_GPIO, NR_GET_CHIP_INFO, CHIP_INFO_SIZE)
            == REQ_GET_CHIP_INFO,
        CHIP_INFO_SIZE == NAME_BUFSIZE + LABEL_BUFSIZE + 4,
{
    assert((2u32 << 30) | (68u32 << 16) | (0xB4u32 << 8) | 1u32 == 0x8044_B401u32)
        by (bit_vector);
}

/// Turns what a system call returned into a result: -1 is a failure with
/// the given error number, every other value is the call's result.
pub fn parse_retval(retval: i32, errno: i32) -> (res: Result<i32, std::io::Error>)
    ensures
        retval != -1 ==> res == Ok::<i32, std::io::Error>(retval),
        retval == -1 ==> res is Err && raw_os_code(res->Err_0) == Some(errno),
{
    if retval == -1 {
        Err(os_error(errno))
    } else {
        Ok(retval)
    }
}

/// The chip descriptor of a GPIO device, field for field as the kernel
/// fills it.
#[derive(Debug, Copy, Clone)]
pub struct ChipInfo {
    /// Name of the chip in the kernel, NUL-padded.
    pub name: [u8; NAME_BUFSIZE],
    /// Label of the chip, which for the SoC's controller is the name of
    /// its driver, NUL-padded.
    pub label: [u8; LABEL_BUFSIZE],
    /// Number of lines of the chip.
    pub lines: u32,
}

impl ChipInfo {
    /// Returns the descriptor to hand to the chip-info request: all
    /// zeros.
    pub fn zeroed() -> (info: ChipInfo)
        ensures
            info.lines == 0,
            forall|i: int| 0 <= i < NAME_BUFSIZE ==> info.name@[i] == 0,
            forall|i: int| 0 <= i < LABEL_BUFSIZE ==> info.label@[i] == 0,
    {
        ChipInfo { name: [0u8;NAME_BUFSIZE], label: [0u8;LABEL_BUFSIZE], lines: 0 }
    }

    /// Interprets the outcome of the chip-info request: `retval` is what
    /// the call returned, `errno` the error number it left, and `filled`
    /// the descriptor it was given to fill. The descriptor is returned
    /// unless the call failed.
    pub fn new(retval: i32, errno: i32, filled: ChipInfo) -> (res: Result<ChipInfo, Error>)
        ensures
            retval != -1 ==> res == Ok::<ChipInfo, Error>(filled),
            retval == -1 ==> (res matches Err(Error::Io(e)) && raw_os_code(e) == Some(errno)),
    {
        match parse_retval(retval, errno) {
            Ok(_) => Ok(filled),
            Err(e) => Err(Error::from(e)),
        }
    }

    /// Returns the name of the chip as text.
    pub fn name(&self) -> (s: String)
        ensures
            s@ == decoded(self.name@),
    {
        cbuf_to_string(self.name.as_slice())
    }

    /// Returns the label of the chip as text.
    pub fn label(&self) -> (s: String)
        ensures
            s@ == decoded(self.label@),
    {
        cbuf_to_string(self.label.as_slice())
    }
}

/// `label` starts with the bytes of `name`, whatever follows them.
pub open spec fn starts_with_name(label: Seq<u8>, name: Seq<char>) -> bool {
    &&& name.len() <= label.len()
    &&& forall|i: int| 0 <= i < name.len() ==> label[i] == name[i] as u8
}

/// Whether `label` starts with the name of the driver of a pin controller
/// of a Raspberry Pi: of the BCM2835 family, of the BCM2711, or of the RP1.
pub open spec fn is_pin_controller(label: Seq<u8>) -> bool {
    ||| starts_with_name(label, "pinctrl-bcm2835"@)
    ||| starts_with_name(label, "pinctrl-bcm2711"@)
    ||| starts_with_name(label, "pinctrl-rp1"@)
}

fn label_is(label: &[u8; LABEL_BUFSIZE], name: &str) -> (same: bool)
    requires
        name.is_ascii(),
        name@.len() <= LABEL_BUFSIZE,
    ensures
        same == starts_with_name(label@, name@),
{
    let n: usize = name.unicode_len();
    let mut i: usize = 0;
    while i < n
        invariant
            i <= n,
            n == name@.len(),
            n <= LABEL_BUFSIZE,
            name.is_ascii(),
            forall|k: int| 0 <= k < i ==> label@[k] == name@[k] as u8,
        decreases n - i,
    {
        if label[i] != name.get_ascii(i) {
            return false;
        }
        i += 1;
    }
    true
}

/// Tells whether a chip's label starts with one of the driver names of the
/// SoC's pin controller.
pub fn label_is_pin_controller(label: &[u8; LABEL_BUFSIZE]) -> (found: bool)
    ensures
        found == is_pin_controller(label@),
{
    proof {
        reveal_strlit("pinctrl-bcm2835");
        reveal_strlit("pinctrl-bcm2711");
        reveal_strlit("pinctrl-rp1");
    }
    label_is(label, "pinctrl-bcm2835") || label_is(label, "pinctrl-bcm2711") || label_is(
        label,
        "pinctrl-rp1",
    )
}

/// What came of probing one candidate node.
#[derive(Debug)]
pub enum Probe {
    /// The node could not be opened for reading and writing.
    OpenFailed(std::io::Error),
    /// The node was opened and the chip-info request was issued on it:
    /// `retval` is what the call returned, `errno` the error number it
    /// left, `info` the descriptor it was given to fill.
    Queried { retval: i32, errno: i32, info: ChipInfo },
}

/// What the scan does next.
#[derive(Debug)]
pub enum Action {
    /// Open the node at `path` for reading and writing and, if it opens,
    /// issue `request` on it with a zeroed chip descriptor.
    Probe { index: u8, path: String, request: u32 },
    /// The candidate with this index is the pin controller: the scan ends
    /// and its open handle is the result.
    Found(u8),
    /// The scan ends with this error.
    Fail(Error),
}

/// The path of the candidate with the given index.
pub open spec fn candidate_path(index: int) -> Seq<char> {
    PATH_GPIOCHIP@ + decimal(index as nat)
}

/// `action` is the probe of the candidate with the given index: at that
/// candidate's path, with the chip-info request.
pub open spec fn is_probe_of(action: Action, index: int) -> bool {
    action matches Action::Probe { index: i, path, request } && i == index && path@
        == candidate_path(index) && request == REQ_GET_CHIP_INFO
}

/// The outcome is that of a chip that answered and is not the pin
/// controller: the only outcome after which the scan goes on.
pub open spec fn passes_over(outcome: Probe) -> bool {
    outcome matches Probe::Queried { retval, errno, info } && retval != -1 && !is_pin_controller(
        info.label@,
    )
}

/// The outcome is that of the pin controller: a chip that answered with a
/// label that starts with one of the known driver names.
pub open spec fn is_match(outcome: Probe) -> bool {
    outcome matches Probe::Queried { retval, errno, info } && retval != -1 && is_pin_controller(
        info.label@,
    )
}

/// `action` is what follows when the candidate `index` gave `outcome`.
/// A node that may not be opened ends the scan with `PermissionDenied` and
/// its path; any other failure to open it ends the scan with that error; a
/// failed request ends it with the request's error number; the pin
/// controller ends it with success; any other chip sends the scan to the
/// next candidate, and after candidate 255 to the error "no such file".
pub open spec fn follows(index: u8, outcome: Probe, action: Action) -> bool {
    match outcome {
        Probe::OpenFailed(e) => if is_permission_denied(e) {
            action matches Action::Fail(Error::PermissionDenied(path)) && path@ == candidate_path(
                index as int,
            )
        } else {
            action == Action::Fail(Error::Io(e))
        },
        Probe::Queried { retval, errno, info } => if retval == -1 {
            action matches Action::Fail(Error::Io(e)) && raw_os_code(e) == Some(errno)
        } else if is_pin_controller(info.label@) {
            action == Action::Found(index)
        } else if index < 255 {
            is_probe_of(action, index + 1)
        } else {
            action matches Action::Fail(Error::Io(e)) && raw_os_code(e) == Some(NO_ENTRY)
        },
    }
}

/// Returns the path of the candidate with the given index.
pub fn gpiochip_path(index: u8) -> (path: String)
    ensures
        path@ == candidate_path(index as int),
{
    let mut path = String::from_str(PATH_GPIOCHIP);
    push_decimal(&mut path, index);
    path
}

/// Returns the first action of a scan: the probe of candidate 0.
pub fn first_probe() -> (action: Action)
    ensures
        is_probe_of(action, 0),
{
    Action::Probe { index: 0, path: gpiochip_path(0), request: get_chip_info_request() }
}

/// Decides what the scan does after the candidate `index` gave `outcome`.
pub fn next_action(index: u8, outcome: Probe) -> (action: Action)
    ensures
        follows(index, outcome, action),
{
    match outcome {
        Probe::OpenFailed(e) => {
            if permission_denied(&e) {
                Action::Fail(Error::PermissionDenied(gpiochip_path(index)))
            } else {
                Action::Fail(Error::from(e))
            }
        },
        Probe::Queried { retval, errno, info } => {
            match ChipInfo::new(retval, errno, info) {
                Err(e) => Action::Fail(e),
                Ok(chip_info) => {
                    if label_is_pin_controller(&chip_info.label) {
                        Action::Found(index)
                    } else if index < 255 {
                        Action::Probe {
                            index: index + 1,
                            path: gpiochip_path(index + 1),
                            request: get_chip_info_request(),
                        }
                    } else {
                        Action::Fail(Error::Io(os_error(no_entry_code())))
                    }
                },
            }
        },
    }
}

/// `trace` is a scan of `nodes`, where `nodes[i]` is what probing
/// candidate `i` gives: the trace starts with the probe of candidate 0,
/// every action but the last is a probe, and each action but the first is
/// what follows from the outcome of the probe before it.
pub open spec fn is_scan(nodes: Seq<Probe>, trace: Seq<Action>) -> bool {
    &&& nodes.len() == 256
    &&& trace.len() > 0
    &&& is_probe_of(trace[0], 0)
    &&& forall|k: int|
        0 <= k < trace.len() - 1 ==> (#[trigger] trace[k] matches Action::Probe { index, .. }
            && follows(index, nodes[index as int], trace[k + 1]))
}

proof fn lemma_scan_prefix(nodes: Seq<Probe>, trace: Seq<Action>, k: int)
    requires
        is_scan(nodes, trace),
        0 <= k < trace.len() - 1,
    ensures
        k <= 255,
        is_probe_of(trace[k], k),
        follows(k as u8, nodes[k], trace[k + 1]),
        forall|j: int| 0 <= j < k ==> passes_over(#[trigger] nodes[j]),
    decreases k,
{
    if k > 0 {
        lemma_scan_prefix(nodes, trace, k - 1);
    }
    assert(trace[k] is Probe);
}

/// A scan visits the candidates in strictly increasing order, from 0 and
/// without a gap, and stops at the first one whose outcome is not that of
/// another chip: the action `k` of the trace, if it is not the last, is the
/// probe of candidate `k`; every candidate before the last one probed was
/// passed over; and the trace ends with what follows from the last
/// candidate probed, which is no probe. So a scan that finds the
/// controller finds the first candidate that matches.
pub proof fn lemma_scan_in_order(nodes: Seq<Probe>, trace: Seq<Action>)
    requires
        is_scan(nodes, trace),
        !(trace.last() is Probe),
    ensures
        2 <= trace.len() <= 257,
        forall|k: int| 0 <= k < trace.len() - 1 ==> is_probe_of(#[trigger] trace[k], k),
        forall|k: int| 0 <= k < trace.len() - 2 ==> passes_over(#[trigger] nodes[k]),
        follows((trace.len() - 2) as u8, nodes[trace.len() - 2], trace.last()),
        trace.len() < 257 ==> !passes_over(nodes[trace.len() - 2]),
        trace.last() matches Action::Found(index) ==> index == trace.len() - 2 && is_match(
            nodes[index as int],
        ),
{
    let last = trace.len() - 2;
    lemma_scan_prefix(nodes, trace, last);
    assert forall|k: int| 0 <= k < trace.len() - 1 implies is_probe_of(#[trigger] trace[k], k) by {
        lemma_scan_prefix(nodes, trace, k);
    }
}

/// A candidate that may not be opened ends the scan: if a scan probes a
/// candidate and opening it is denied, the next action is the last, and
/// it is the failure `PermissionDenied` with that candidate's path.
pub proof fn lemma_scan_stops_at_denial(nodes: Seq<Probe>, trace: Seq<Action>, k: int)
    requires
        is_scan(nodes, trace),
        0 <= k < trace.len() - 1,
        nodes[k] matches Probe::OpenFailed(e) && is_permission_denied(e),
    ensures
        k == trace.len() - 2,
        trace[k + 1] matches Action::Fail(Error::PermissionDenied(path)) && path@
            == candidate_path(k),
{
    lemma_scan_prefix(nodes, trace, k);
    if k + 1 < trace.len() - 1 {
        lemma_scan_prefix(nodes, trace, k + 1);
    }
}

/// `outcome` is what `probe` answered when asked to open the path of
/// candidate `index` and issue the chip-info request.
pub open spec fn answered<F: Fn(String, u32) -> Probe>(probe: F, index: int, outcome: Probe) -> bool {
    exists|path: String|
        path@ == candidate_path(index) && #[trigger] call_ensures(
            probe,
            (path, REQ_GET_CHIP_INFO),
            outcome,
        )
}

/// `outcomes` is what `probe` answered, candidate by candidate from 0.
pub open spec fn answers<F: Fn(String, u32) -> Probe>(probe: F, outcomes: Seq<Probe>) -> bool {
    forall|k: int| 0 <= k < outcomes.len() ==> answered(probe, k, #[trigger] outcomes[k])
}

/// `res` is the result of a scan that saw `outcomes`: every candidate but
/// the last was passed over, and the last one decides. `Ok` holds the index
/// of the pin controller; `Err` holds the error that `follows` gives for
/// the last outcome.
pub open spec fn scan_result(outcomes: Seq<Probe>, res: Result<u8, Error>) -> bool {
    &&& 1 <= outcomes.len() <= 256
    &&& forall|k: int| 0 <= k < outcomes.len() - 1 ==> passes_over(#[trigger] outcomes[k])
    &&& passes_over(outcomes.last()) ==> outcomes.len() == 256
    &&& match res {
        Ok(index) => follows(
            (outcomes.len() - 1) as u8,
            outcomes.last(),
            Action::Found(index),
        ),
        Err(e) => follows((outcomes.len() - 1) as u8, outcomes.last(), Action::Fail(e)),
    }
}

/// Finds the GPIO device of the SoC's pin controller by its label.
///
/// `probe` does the work on the device nodes: given a path and a request
/// code, it opens the node for reading and writing, issues the request
/// with a zeroed chip descriptor, and reports what came of it. The scan
/// asks it for the candidates 0 to 255 in this order and stops at the
/// first whose outcome is not that of some other chip. The result is the
/// index of the controller, or the error that ended the scan.
pub fn find_gpiochip<F: Fn(String, u32) -> Probe>(probe: F) -> (res: Result<u8, Error>)
    requires
        forall|path: String, request: u32| call_requires(probe, (path, request)),
    ensures
        exists|outcomes: Seq<Probe>| answers(probe, outcomes) && scan_result(outcomes, res),
{
    let mut index: u8 = 0;
    let ghost mut outcomes: Seq<Probe> = Seq::empty();
    loop
        invariant
            outcomes.len() == index,
            answers(probe, outcomes),
            forall|k: int| 0 <= k < outcomes.len() ==> passes_over(#[trigger] outcomes[k]),
            forall|path: String, request: u32| call_requires(probe, (path, request)),
        decreases 256 - index,
    {
        let path = gpiochip_path(index);
        let ghost asked = path;
        let outcome = probe(path, get_chip_info_request());
        let ghost seen = outcome;
        proof {
            let before = outcomes;
            outcomes = outcomes.push(seen);
            assert(call_ensures(probe, (asked, REQ_GET_CHIP_INFO), seen));
            assert(answered(probe, index as int, seen));
            assert forall|k: int| 0 <= k < outcomes.len() implies answered(
                probe,
                k,
                #[trigger] outcomes[k],
            ) by {
                if k < before.len() {
                    assert(outcomes[k] == before[k]);
                }
            }
            assert forall|k: int| 0 <= k < outcomes.len() - 1 implies passes_over(
                #[trigger] outcomes[k],
            ) by {
                assert(outcomes[k] == before[k]);
            }
        }
        match next_action(index, outcome) {
            Action::Probe { index: next, .. } => {
                index = next;
            },
            Action::Found(found) => {
                assert(scan_result(outcomes, Ok::<u8, Error>(found)));
                return Ok(found);
            },
            Action::Fail(e) => {
                assert(scan_result(outcomes, Err::<u8, Error>(e)));
                return Err(e);
            },
        }
    }
}

} // verus!
