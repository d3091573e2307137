//! Checks on the kernel boundary itself: the sizes of the types that cross it,
//! and the strings that come back over it.

use vstd::prelude::*;
use vstd::layout::size_of;
use vstd::utf8::decode_utf8;
use vstd::utf8::valid_utf8;
use crate::base::FreeRtosBaseType;
use crate::base::FreeRtosChar;
use crate::base::FreeRtosError;
use crate::base::FreeRtosQueueHandle;
use crate::base::FreeRtosSemaphoreHandle;
use crate::base::FreeRtosTaskState;
use crate::base::FreeRtosTaskStatusFfi;
use crate::base::FreeRtosTaskHandle;
use crate::base::FreeRtosTickType;
use crate::base::FreeRtosTimerHandle;
use crate::base::FreeRtosUBaseType;
use crate::base::FreeRtosUnsignedLong;
use crate::base::FreeRtosUnsignedShort;
use crate::shim::c_string;
use crate::shim::freertos_rs_sizeof;
use crate::shim::lemma_first_zero;
use crate::shim::spec_sizeof;
use crate::shim::Kernel;

verus! {

/// The error of `String::from_utf8`; nothing of it is read.
#[verifier::external_type_specification]
#[verifier::external_body]
pub struct ExFromUtf8Error(std::string::FromUtf8Error);

/// `String::from_utf8` succeeds on exactly the byte vectors that are valid
/// UTF-8, and the string then holds the characters that the bytes encode.
pub assume_specification[ String::from_utf8 ](vec: Vec<u8>) -> (r: Result<
    String,
    std::string::FromUtf8Error,
>)
    ensures
        r is Ok <==> valid_utf8(vec@),
        r matches Ok(s) ==> s@ == decode_utf8(vec@),
;

/// A boundary type on whose size the kernel and the wrappers disagree.
#[derive(Debug, Copy, Clone)]
pub struct TypeSizeError {
    id: usize,
    c_size: usize,
    rust_size: usize,
}

impl TypeSizeError {
    /// The number of the type.
    pub closed spec fn spec_id(&self) -> usize {
        self.id
    }

    /// The size the kernel has for the type.
    pub closed spec fn spec_c_size(&self) -> usize {
        self.c_size
    }

    /// The size the wrappers have for the type.
    pub closed spec fn spec_rust_size(&self) -> usize {
        self.rust_size
    }

    /// The number of the type.
    pub fn id(&self) -> (id: usize)
        ensures
            id == self.spec_id(),
    {
        self.id
    }

    /// The size the kernel has for the type.
    pub fn c_size(&self) -> (size: usize)
        ensures
            size == self.spec_c_size(),
    {
        self.c_size
    }

    /// The size the wrappers have for the type.
    pub fn rust_size(&self) -> (size: usize)
        ensures
            size == self.spec_rust_size(),
    {
        self.rust_size
    }
}

/// The numbers of the boundary types whose sizes are compared, in the order
/// in which they are compared.
pub open spec fn checked_type_ids() -> Seq<u8> {
    seq![
        0u8,
        1u8,
        2u8,
        10u8,
        11u8,
        12u8,
        20u8,
        21u8,
        22u8,
        23u8,
        24u8,
        25u8,
        30u8,
        31u8,
        32u8,
        33u8,
    ]
}

/// The size the wrappers have for the boundary type with the given number:
/// pointers and handles are words of this machine, 30 is the record of a
/// task's status and 31 the state of a task.
pub open spec fn rust_sizeof(type_id: u8) -> nat {
    if type_id == 0 || type_id == 1 || (20 <= type_id && type_id <= 25) {
        size_of::<usize>()
    } else if type_id == 2 {
        size_of::<FreeRtosChar>()
    } else if type_id == 10 {
        size_of::<FreeRtosBaseType>()
    } else if type_id == 11 {
        size_of::<FreeRtosUBaseType>()
    } else if type_id == 12 {
        size_of::<FreeRtosTickType>()
    } else if type_id == 30 {
        size_of::<FreeRtosTaskStatusFfi>()
    } else if type_id == 31 {
        size_of::<FreeRtosTaskState>()
    } else if type_id == 32 {
        size_of::<FreeRtosUnsignedLong>()
    } else {
        size_of::<FreeRtosUnsignedShort>()
    }
}

/// Whether the kernel and the wrappers agree on the size of the type with the
/// given number, for a kernel built for pointers of `word_bytes` bytes.
pub open spec fn sizes_agree(word_bytes: u8, type_id: u8) -> bool {
    spec_sizeof(word_bytes, type_id) as nat == rust_sizeof(type_id)
}

/// Whether `i` is the place in [`checked_type_ids`] of the first type on
/// whose size the two sides disagree.
pub open spec fn first_disagreement(word_bytes: u8, i: int) -> bool {
    &&& 0 <= i < checked_type_ids().len()
    &&& !sizes_agree(word_bytes, checked_type_ids()[i])
    &&& forall|j: int| 0 <= j < i ==> sizes_agree(word_bytes, #[trigger] checked_type_ids()[j])
}

/// The sizes the wrappers have for the compared boundary types.
fn rust_sizes() -> (sizes: Vec<(u8, usize)>)
    ensures
        sizes@.len() == checked_type_ids().len(),
        forall|i: int|
            0 <= i < sizes@.len() ==> (#[trigger] sizes@[i]).0 == checked_type_ids()[i]
                && sizes@[i].1 == rust_sizeof(checked_type_ids()[i]),
{
    let mut sizes: Vec<(u8, usize)> = Vec::new();
    sizes.push((0, core::mem::size_of::<usize>()));
    sizes.push((1, core::mem::size_of::<usize>()));
    sizes.push((2, core::mem::size_of::<FreeRtosChar>()));
    sizes.push((10, core::mem::size_of::<FreeRtosBaseType>()));
    sizes.push((11, core::mem::size_of::<FreeRtosUBaseType>()));
    sizes.push((12, core::mem::size_of::<FreeRtosTickType>()));
    sizes.push((20, core::mem::size_of::<FreeRtosTaskHandle>()));
    sizes.push((21, core::mem::size_of::<FreeRtosQueueHandle>()));
    sizes.push((22, core::mem::size_of::<FreeRtosSemaphoreHandle>()));
    sizes.push((23, core::mem::size_of::<usize>()));
    sizes.push((24, core::mem::size_of::<FreeRtosTimerHandle>()));
    sizes.push((25, core::mem::size_of::<usize>()));
    sizes.push((30, core::mem::size_of::<FreeRtosTaskStatusFfi>()));
    sizes.push((31, core::mem::size_of::<FreeRtosTaskState>()));
    sizes.push((32, core::mem::size_of::<FreeRtosUnsignedLong>()));
    sizes.push((33, core::mem::size_of::<FreeRtosUnsignedShort>()));
    sizes
}

/// Perform checks whether the kernel and the wrappers agree on the sizes of
/// the types that cross the boundary. Succeeds when they agree on all;
/// otherwise reports the first type, in the order of [`checked_type_ids`], on
/// which they do not.
pub fn shim_sanity_check(k: &Kernel) -> (r: Result<(), TypeSizeError>)
    ensures
        match r {
            Ok(_) => forall|i: int|
                0 <= i < checked_type_ids().len() ==> sizes_agree(
                    k@.word_bytes,
                    #[trigger] checked_type_ids()[i],
                ),
            Err(e) => exists|i: int|
                {
                    &&& #[trigger] first_disagreement(k@.word_bytes, i)
                    &&& e.spec_id() == checked_type_ids()[i]
                    &&& e.spec_c_size() == spec_sizeof(k@.word_bytes, checked_type_ids()[i])
                    &&& e.spec_rust_size() == rust_sizeof(checked_type_ids()[i])
                },
        },
{
    let checks = rust_sizes();
    let mut i: usize = 0;
    while i < checks.len()
        invariant
            i <= checks@.len(),
            checks@.len() == checked_type_ids().len(),
            forall|j: int|
                0 <= j < checks@.len() ==> (#[trigger] checks@[j]).0 == checked_type_ids()[j]
                    && checks@[j].1 == rust_sizeof(checked_type_ids()[j]),
            forall|j: int| 0 <= j < i ==> sizes_agree(k@.word_bytes, #[trigger] checked_type_ids()[j]),
        decreases checks.len() - i,
    {
        let check = checks[i];
        let c_size = freertos_rs_sizeof(k, check.0);
        let wide: usize = check.1;
        if c_size as usize != wide {
            assert(first_disagreement(k@.word_bytes, i as int));
            return Err(TypeSizeError { id: check.0 as usize, c_size: c_size as usize, rust_size: wide });
        }
        i += 1;
    }
    Ok(())
}

/// The string that a zero-terminated buffer holds: the bytes before the first
/// zero byte (all of them if there is none), read as UTF-8. Fails exactly when
/// those bytes are not valid UTF-8.
pub fn str_from_c_string(str: &[u8]) -> (r: Result<String, FreeRtosError>)
    ensures
        match r {
            Ok(s) => valid_utf8(c_string(str@)) && s@ == decode_utf8(c_string(str@)),
            Err(e) => e == FreeRtosError::StringConversionError && !valid_utf8(c_string(str@)),
        },
{
    let mut buf: Vec<u8> = Vec::new();
    let mut p: usize = 0;
    while p < str.len() && str[p] != 0
        invariant
            p <= str@.len(),
            buf@ == str@.take(p as int),
            forall|j: int| 0 <= j < p ==> str@[j] != 0,
        decreases str@.len() - p,
    {
        buf.push(str[p]);
        p += 1;
        assert(buf@ =~= str@.take(p as int));
    }
    proof {
        lemma_first_zero(str@, p as int);
    }
    match String::from_utf8(buf) {
        Ok(s) => Ok(s),
        Err(_) => Err(FreeRtosError::StringConversionError),
    }
}

} // verus!
