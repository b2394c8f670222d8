//! The binary layout of iRacing telemetry: the SDK header, the disk header
//! of an `.ibt` file, the variable headers, and the values in one record.
//! Every number is little-endian.
use vstd::prelude::*;
use super::frame::{F32Bits, F64Bits, TelemetryValue, VariableType};
use crate::text::{concat_str, decimal, i32_to_string, signed_decimal, to_owned_string, usize_to_string};

verus! {

/// The length of the SDK header.
pub const HEADER_LEN: usize = 112;

/// The length of the disk header that follows the SDK header in a file.
pub const DISK_HEADER_LEN: usize = 32;

/// The length of one variable header.
pub const VARIABLE_HEADER_LEN: usize = 144;

/// The number of telemetry buffers that the SDK header describes.
pub const IRSDK_MAX_BUFFERS: usize = 4;

/// Why bytes could not be read as iRacing telemetry.
#[derive(Debug, Clone, PartialEq, Eq)]
pub enum IbtError {
    /// A field at `offset`, `width` bytes wide, runs past the end of the data.
    OutOfBounds { offset: usize, width: usize },
    /// The count or length named `label` is negative.
    Negative { label: String },
    /// The region named `label` extends beyond the end of the file.
    BeyondEnd { label: String },
    /// The tick rate is not positive.
    TickRateNotPositive,
    /// The record data has a negative offset.
    NegativeRecordOffset,
    /// The record data extends beyond the end of the file.
    RecordDataBeyondEnd,
    /// An offset or a length overflowed.
    Overflow,
    /// A variable header names a type that the SDK does not define.
    UnknownVariableType { code: i32 },
    /// A record index past the last record.
    RecordIndexOutOfRange { index: usize },
    /// A record index that a packet id cannot hold.
    RecordIndexTooLarge { index: usize },
    /// A file holds some other number of telemetry buffers than one.
    BufferCount { found: i32 },
    /// The session start or end time is infinite or NaN.
    NonFiniteTimes,
    /// The session ends before it starts.
    EndBeforeStart,
    /// The record data starts inside the headers or the session information.
    MetadataOverlap,
    /// Variable `index` has a negative place or runs past the end of a record.
    VariableOutsideRecord { index: usize },
}

/// An error, as plain values.
pub enum IbtErrorView {
    OutOfBounds { offset: usize, width: usize },
    Negative { label: Seq<char> },
    BeyondEnd { label: Seq<char> },
    TickRateNotPositive,
    NegativeRecordOffset,
    RecordDataBeyondEnd,
    Overflow,
    UnknownVariableType { code: i32 },
    RecordIndexOutOfRange { index: usize },
    RecordIndexTooLarge { index: usize },
    BufferCount { found: i32 },
    NonFiniteTimes,
    EndBeforeStart,
    MetadataOverlap,
    VariableOutsideRecord { index: usize },
}

/// The plain form of an error.
pub open spec fn error_view(e: IbtError) -> IbtErrorView {
    match e {
        IbtError::OutOfBounds { offset, width } => IbtErrorView::OutOfBounds { offset, width },
        IbtError::Negative { label } => IbtErrorView::Negative { label: label@ },
        IbtError::BeyondEnd { label } => IbtErrorView::BeyondEnd { label: label@ },
        IbtError::TickRateNotPositive => IbtErrorView::TickRateNotPositive,
        IbtError::NegativeRecordOffset => IbtErrorView::NegativeRecordOffset,
        IbtError::RecordDataBeyondEnd => IbtErrorView::RecordDataBeyondEnd,
        IbtError::Overflow => IbtErrorView::Overflow,
        IbtError::UnknownVariableType { code } => IbtErrorView::UnknownVariableType { code },
        IbtError::RecordIndexOutOfRange { index } => IbtErrorView::RecordIndexOutOfRange { index },
        IbtError::RecordIndexTooLarge { index } => IbtErrorView::RecordIndexTooLarge { index },
        IbtError::BufferCount { found } => IbtErrorView::BufferCount { found },
        IbtError::NonFiniteTimes => IbtErrorView::NonFiniteTimes,
        IbtError::EndBeforeStart => IbtErrorView::EndBeforeStart,
        IbtError::MetadataOverlap => IbtErrorView::MetadataOverlap,
        IbtError::VariableOutsideRecord { index } => IbtErrorView::VariableOutsideRecord { index },
    }
}

/// The message that describes an error.
pub open spec fn error_text(e: IbtErrorView) -> Seq<char> {
    match e {
        IbtErrorView::OutOfBounds { offset, width } => "IBT field at byte "@ + decimal(offset as nat)
            + " ("@ + decimal(width as nat) + " bytes) runs past the end of the data"@,
        IbtErrorView::Negative { label } => "IBT "@ + label + " is negative"@,
        IbtErrorView::BeyondEnd { label } => "IBT "@ + label + " extends beyond the end of the file"@,
        IbtErrorView::TickRateNotPositive => "IBT tick rate must be positive"@,
        IbtErrorView::NegativeRecordOffset => "IBT record data has a negative offset"@,
        IbtErrorView::RecordDataBeyondEnd => "IBT record data extends beyond the end of the file"@,
        IbtErrorView::Overflow => "IBT offset or length overflowed"@,
        IbtErrorView::UnknownVariableType { code } => "unknown iRacing variable type "@ + signed_decimal(
            code as int,
        ),
        IbtErrorView::RecordIndexOutOfRange { index } => "IBT record index "@ + decimal(index as nat)
            + " is out of range"@,
        IbtErrorView::RecordIndexTooLarge { index } => "IBT record index "@ + decimal(index as nat)
            + " exceeds the SDK limit"@,
        IbtErrorView::BufferCount { found } => "an IBT file must contain one telemetry buffer, found "@
            + signed_decimal(found as int),
        IbtErrorView::NonFiniteTimes => "IBT session times must be finite"@,
        IbtErrorView::EndBeforeStart => "IBT session end time precedes its start time"@,
        IbtErrorView::MetadataOverlap => "IBT record data overlaps file metadata"@,
        IbtErrorView::VariableOutsideRecord { index } => "IBT variable "@ + decimal(index as nat)
            + " lies outside the record"@,
    }
}

impl IbtError {
    /// The message that describes this error.
    pub fn message(&self) -> (r: String)
        ensures
            r@ == error_text(error_view(*self)),
    {
        match self {
            IbtError::OutOfBounds { offset, width } => {
                let s = concat_str(to_owned_string("IBT field at byte "), usize_to_string(*offset).as_str());
                let s = concat_str(s, " (");
                let s = concat_str(s, usize_to_string(*width).as_str());
                concat_str(s, " bytes) runs past the end of the data")
            },
            IbtError::Negative { label } => {
                let s = concat_str(to_owned_string("IBT "), label.as_str());
                concat_str(s, " is negative")
            },
            IbtError::BeyondEnd { label } => {
                let s = concat_str(to_owned_string("IBT "), label.as_str());
                concat_str(s, " extends beyond the end of the file")
            },
            IbtError::TickRateNotPositive => to_owned_string("IBT tick rate must be positive"),
            IbtError::NegativeRecordOffset => to_owned_string("IBT record data has a negative offset"),
            IbtError::RecordDataBeyondEnd => to_owned_string("IBT record data extends beyond the end of the file"),
            IbtError::Overflow => to_owned_string("IBT offset or length overflowed"),
            IbtError::UnknownVariableType { code } => concat_str(
                to_owned_string("unknown iRacing variable type "),
                i32_to_string(*code).as_str(),
            ),
            IbtError::RecordIndexOutOfRange { index } => {
                let s = concat_str(to_owned_string("IBT record index "), usize_to_string(*index).as_str());
                concat_str(s, " is out of range")
            },
            IbtError::RecordIndexTooLarge { index } => {
                let s = concat_str(to_owned_string("IBT record index "), usize_to_string(*index).as_str());
                concat_str(s, " exceeds the SDK limit")
            },
            IbtError::BufferCount { found } => concat_str(
                to_owned_string("an IBT file must contain one telemetry buffer, found "),
                i32_to_string(*found).as_str(),
            ),
            IbtError::NonFiniteTimes => to_owned_string("IBT session times must be finite"),
            IbtError::EndBeforeStart => to_owned_string("IBT session end time precedes its start time"),
            IbtError::MetadataOverlap => to_owned_string("IBT record data overlaps file metadata"),
            IbtError::VariableOutsideRecord { index } => {
                let s = concat_str(to_owned_string("IBT variable "), usize_to_string(*index).as_str());
                concat_str(s, " lies outside the record")
            },
        }
    }
}

/// The unsigned number in the 4 bytes of `b` at `at`.
pub open spec fn le_u32(b: Seq<u8>, at: int) -> int {
    b[at] + 256 * b[at + 1] + 65536 * b[at + 2] + 16777216 * b[at + 3]
}

/// The unsigned number in the 8 bytes of `b` at `at`.
pub open spec fn le_u64(b: Seq<u8>, at: int) -> int {
    le_u32(b, at) + 4294967296 * le_u32(b, at + 4)
}

/// The two's complement reading of a 32-bit pattern.
pub open spec fn signed32(u: int) -> int {
    if u < 0x8000_0000 {
        u
    } else {
        u - 0x1_0000_0000
    }
}

/// The two's complement reading of a 64-bit pattern.
pub open spec fn signed64(u: int) -> int {
    if u < 0x8000_0000_0000_0000 {
        u
    } else {
        u - 0x1_0000_0000_0000_0000
    }
}

/// The signed number in the 4 bytes of `b` at `at`.
pub open spec fn le_i32(b: Seq<u8>, at: int) -> int {
    signed32(le_u32(b, at))
}

/// The signed number in the 8 bytes of `b` at `at`.
pub open spec fn le_i64(b: Seq<u8>, at: int) -> int {
    signed64(le_u64(b, at))
}

/// Whether `width` bytes at `offset` lie within `len` bytes.
pub open spec fn fits(len: nat, offset: int, width: int) -> bool {
    offset + width <= len
}

/// The unsigned number in the 4 bytes at `offset`.
pub fn read_u32(bytes: &[u8], offset: usize) -> (r: Result<u32, IbtError>)
    ensures
        fits(bytes@.len(), offset as int, 4) ==> r == Ok::<u32, IbtError>(le_u32(bytes@, offset as int) as u32),
        !fits(bytes@.len(), offset as int, 4) ==> r == Err::<u32, IbtError>(IbtError::OutOfBounds { offset, width: 4 }),
{
    if offset > bytes.len() || bytes.len() - offset < 4 {
        return Err(IbtError::OutOfBounds { offset, width: 4 });
    }
    let b0 = bytes[offset] as u32;
    let b1 = bytes[offset + 1] as u32;
    let b2 = bytes[offset + 2] as u32;
    let b3 = bytes[offset + 3] as u32;
    Ok(b0 + 256 * b1 + 65536 * b2 + 16777216 * b3)
}

/// The signed number in the 4 bytes at `offset`.
pub fn read_i32(bytes: &[u8], offset: usize) -> (r: Result<i32, IbtError>)
    ensures
        fits(bytes@.len(), offset as int, 4) ==> r == Ok::<i32, IbtError>(le_i32(bytes@, offset as int) as i32),
        !fits(bytes@.len(), offset as int, 4) ==> r == Err::<i32, IbtError>(IbtError::OutOfBounds { offset, width: 4 }),
{
    let u = read_u32(bytes, offset)?;
    if u < 0x8000_0000 {
        Ok(u as i32)
    } else {
        Ok(((u - 0x8000_0000) as i32) + i32::MIN)
    }
}

/// The unsigned number in the 8 bytes at `offset`.
pub fn read_u64(bytes: &[u8], offset: usize) -> (r: Result<u64, IbtError>)
    ensures
        fits(bytes@.len(), offset as int, 8) ==> r == Ok::<u64, IbtError>(le_u64(bytes@, offset as int) as u64),
        !fits(bytes@.len(), offset as int, 8) ==> r == Err::<u64, IbtError>(IbtError::OutOfBounds { offset, width: 8 }),
{
    if offset > bytes.len() || bytes.len() - offset < 8 {
        return Err(IbtError::OutOfBounds { offset, width: 8 });
    }
    let low = read_u32(bytes, offset)?;
    let high = read_u32(bytes, offset + 4)?;
    Ok((low as u64) + 4294967296 * (high as u64))
}

/// The signed number in the 8 bytes at `offset`.
pub fn read_i64(bytes: &[u8], offset: usize) -> (r: Result<i64, IbtError>)
    ensures
        fits(bytes@.len(), offset as int, 8) ==> r == Ok::<i64, IbtError>(le_i64(bytes@, offset as int) as i64),
        !fits(bytes@.len(), offset as int, 8) ==> r == Err::<i64, IbtError>(IbtError::OutOfBounds { offset, width: 8 }),
{
    let u = read_u64(bytes, offset)?;
    if u < 0x8000_0000_0000_0000 {
        Ok(u as i64)
    } else {
        Ok(((u - 0x8000_0000_0000_0000) as i64) + i64::MIN)
    }
}

/// The double in the 8 bytes at `offset`, as its bit pattern.
pub fn read_f64(bytes: &[u8], offset: usize) -> (r: Result<F64Bits, IbtError>)
    ensures
        fits(bytes@.len(), offset as int, 8) ==> r == Ok::<F64Bits, IbtError>(F64Bits(le_u64(bytes@, offset as int) as u64)),
        !fits(bytes@.len(), offset as int, 8) ==> r == Err::<F64Bits, IbtError>(IbtError::OutOfBounds { offset, width: 8 }),
{
    let u = read_u64(bytes, offset)?;
    Ok(F64Bits(u))
}

/// The `len` bytes at `offset`.
pub fn read_bytes(bytes: &[u8], offset: usize, len: usize) -> (r: Result<Vec<u8>, IbtError>)
    ensures
        fits(bytes@.len(), offset as int, len as int) ==> (r matches Ok(v) && v@ == bytes@.subrange(offset as int, offset + len)),
        !fits(bytes@.len(), offset as int, len as int) ==> r == Err::<Vec<u8>, IbtError>(IbtError::OutOfBounds { offset, width: len }),
{
    if offset > bytes.len() || bytes.len() - offset < len {
        return Err(IbtError::OutOfBounds { offset, width: len });
    }
    let mut out: Vec<u8> = Vec::new();
    let mut i: usize = 0;
    while i < len
        invariant
            i <= len,
            offset + len <= bytes.len(),
            out@ == bytes@.subrange(offset as int, offset + i),
        decreases len - i,
    {
        out.push(bytes[offset + i]);
        assert(out@ =~= bytes@.subrange(offset as int, offset + i + 1));
        i = i + 1;
    }
    Ok(out)
}

/// One telemetry buffer described by the SDK header.
#[derive(Debug, Clone, Copy, PartialEq, Eq)]
pub struct VariableBuffer {
    pub tick_count: i32,
    pub buffer_offset: i32,
    pub tick_count_begin: i32,
    pub pad: i32,
}

/// The SDK header at the start of shared memory and of an `.ibt` file.
#[derive(Debug, Clone, PartialEq, Eq)]
pub struct Header {
    pub version: i32,
    pub status: i32,
    pub tick_rate: i32,
    pub session_info_update: i32,
    pub session_info_len: i32,
    pub session_info_offset: i32,
    pub num_variables: i32,
    pub variable_header_offset: i32,
    pub num_buffers: i32,
    pub buffer_len: i32,
    pub current_buffer_tick_count: i32,
    pub current_buffer: u8,
    pub pad: Vec<u8>,
    pub variable_buffers: Vec<VariableBuffer>,
}

/// Where buffer `index` is described in the SDK header.
pub open spec fn buffer_offset_in_header(index: int) -> int {
    48 + 16 * index
}

/// The buffer described at `at` of `b`.
pub open spec fn buffer_at(b: Seq<u8>, at: int) -> VariableBuffer {
    VariableBuffer {
        tick_count: le_i32(b, at) as i32,
        buffer_offset: le_i32(b, at + 4) as i32,
        tick_count_begin: le_i32(b, at + 8) as i32,
        pad: le_i32(b, at + 12) as i32,
    }
}

/// Whether `h` is the SDK header held in the first `HEADER_LEN` bytes of `b`.
pub open spec fn header_of(h: Header, b: Seq<u8>) -> bool {
    &&& h.version == le_i32(b, 0)
    &&& h.status == le_i32(b, 4)
    &&& h.tick_rate == le_i32(b, 8)
    &&& h.session_info_update == le_i32(b, 12)
    &&& h.session_info_len == le_i32(b, 16)
    &&& h.session_info_offset == le_i32(b, 20)
    &&& h.num_variables == le_i32(b, 24)
    &&& h.variable_header_offset == le_i32(b, 28)
    &&& h.num_buffers == le_i32(b, 32)
    &&& h.buffer_len == le_i32(b, 36)
    &&& h.current_buffer_tick_count == le_i32(b, 40)
    &&& h.current_buffer == b[44]
    &&& h.pad@ == b.subrange(45, 48)
    &&& h.variable_buffers@.len() == IRSDK_MAX_BUFFERS
    &&& forall|i: int|
        0 <= i < IRSDK_MAX_BUFFERS ==> #[trigger] h.variable_buffers@[i] == buffer_at(
            b,
            buffer_offset_in_header(i),
        )
}

/// Reads the buffer described at `offset`.
fn read_buffer(bytes: &[u8], offset: usize) -> (r: VariableBuffer)
    requires
        offset + 16 <= bytes.len(),
    ensures
        r == buffer_at(bytes@, offset as int),
{
    let tick_count = read_i32(bytes, offset);
    let buffer_offset = read_i32(bytes, offset + 4);
    let tick_count_begin = read_i32(bytes, offset + 8);
    let pad = read_i32(bytes, offset + 12);
    match (tick_count, buffer_offset, tick_count_begin, pad) {
        (Ok(tick_count), Ok(buffer_offset), Ok(tick_count_begin), Ok(pad)) => VariableBuffer {
            tick_count,
            buffer_offset,
            tick_count_begin,
            pad,
        },
        _ => VariableBuffer { tick_count: 0, buffer_offset: 0, tick_count_begin: 0, pad: 0 },
    }
}

/// The SDK header in the first `HEADER_LEN` bytes of `bytes`; fewer bytes
/// are an error.
pub fn read_header(bytes: &[u8]) -> (r: Result<Header, IbtError>)
    ensures
        bytes@.len() >= HEADER_LEN ==> (r matches Ok(h) && header_of(h, bytes@)),
        bytes@.len() < HEADER_LEN ==> r is Err,
{
    if bytes.len() < HEADER_LEN {
        return Err(IbtError::OutOfBounds { offset: 0, width: HEADER_LEN });
    }
    let mut variable_buffers: Vec<VariableBuffer> = Vec::new();
    let mut index: usize = 0;
    while index < IRSDK_MAX_BUFFERS
        invariant
            index <= IRSDK_MAX_BUFFERS,
            bytes@.len() >= HEADER_LEN,
            variable_buffers@.len() == index,
            forall|i: int|
                0 <= i < index ==> #[trigger] variable_buffers@[i] == buffer_at(
                    bytes@,
                    buffer_offset_in_header(i),
                ),
        decreases IRSDK_MAX_BUFFERS - index,
    {
        variable_buffers.push(read_buffer(bytes, 48 + index * 16));
        index = index + 1;
    }
    Ok(
        Header {
            version: read_i32(bytes, 0)?,
            status: read_i32(bytes, 4)?,
            tick_rate: read_i32(bytes, 8)?,
            session_info_update: read_i32(bytes, 12)?,
            session_info_len: read_i32(bytes, 16)?,
            session_info_offset: read_i32(bytes, 20)?,
            num_variables: read_i32(bytes, 24)?,
            variable_header_offset: read_i32(bytes, 28)?,
            num_buffers: read_i32(bytes, 32)?,
            buffer_len: read_i32(bytes, 36)?,
            current_buffer_tick_count: read_i32(bytes, 40)?,
            current_buffer: bytes[44],
            pad: read_bytes(bytes, 45, 3)?,
            variable_buffers,
        },
    )
}

/// The summary that an `.ibt` file keeps after its SDK header.
#[derive(Debug, Clone, Copy, PartialEq, Eq)]
pub struct DiskHeader {
    pub start_date: i64,
    pub start_time: F64Bits,
    pub end_time: F64Bits,
    pub lap_count: i32,
    pub record_count: i32,
}

/// The disk header in the first `DISK_HEADER_LEN` bytes of `bytes`; fewer
/// bytes are an error.
pub fn read_disk_header(bytes: &[u8]) -> (r: Result<DiskHeader, IbtError>)
    ensures
        bytes@.len() >= DISK_HEADER_LEN ==> r == Ok::<DiskHeader, IbtError>(DiskHeader {
            start_date: le_i64(bytes@, 0) as i64,
            start_time: F64Bits(le_u64(bytes@, 8) as u64),
            end_time: F64Bits(le_u64(bytes@, 16) as u64),
            lap_count: le_i32(bytes@, 24) as i32,
            record_count: le_i32(bytes@, 28) as i32,
        }),
        bytes@.len() < DISK_HEADER_LEN ==> r is Err,
{
    if bytes.len() < DISK_HEADER_LEN {
        return Err(IbtError::OutOfBounds { offset: 0, width: DISK_HEADER_LEN });
    }
    Ok(
        DiskHeader {
            start_date: read_i64(bytes, 0)?,
            start_time: read_f64(bytes, 8)?,
            end_time: read_f64(bytes, 16)?,
            lap_count: read_i32(bytes, 24)?,
            record_count: read_i32(bytes, 28)?,
        },
    )
}

/// The definition of one variable as the SDK stores it.
#[derive(Debug, Clone, PartialEq, Eq)]
pub struct VariableHeader {
    pub variable_type: i32,
    pub offset: i32,
    pub count: i32,
    pub count_as_time: u8,
    pub pad: Vec<u8>,
    pub name: Vec<u8>,
    pub description: Vec<u8>,
    pub unit: Vec<u8>,
}

/// Whether `h` is the variable header held in the `VARIABLE_HEADER_LEN`
/// bytes of `b` at `at`.
pub open spec fn variable_header_at(h: VariableHeader, b: Seq<u8>, at: int) -> bool {
    &&& h.variable_type == le_i32(b, at)
    &&& h.offset == le_i32(b, at + 4)
    &&& h.count == le_i32(b, at + 8)
    &&& h.count_as_time == b[at + 12]
    &&& h.pad@ == b.subrange(at + 13, at + 16)
    &&& h.name@ == b.subrange(at + 16, at + 48)
    &&& h.description@ == b.subrange(at + 48, at + 112)
    &&& h.unit@ == b.subrange(at + 112, at + 144)
}

/// Reads the variable header at `offset`.
fn read_variable_header(bytes: &[u8], offset: usize) -> (r: VariableHeader)
    requires
        offset + VARIABLE_HEADER_LEN <= bytes.len(),
    ensures
        variable_header_at(r, bytes@, offset as int),
{
    let variable_type = read_i32(bytes, offset);
    let value_offset = read_i32(bytes, offset + 4);
    let count = read_i32(bytes, offset + 8);
    let pad = read_bytes(bytes, offset + 13, 3);
    let name = read_bytes(bytes, offset + 16, 32);
    let description = read_bytes(bytes, offset + 48, 64);
    let unit = read_bytes(bytes, offset + 112, 32);
    match (variable_type, value_offset, count, pad, name, description, unit) {
        (Ok(variable_type), Ok(value_offset), Ok(count), Ok(pad), Ok(name), Ok(description), Ok(unit)) => {
            VariableHeader {
                variable_type,
                offset: value_offset,
                count,
                count_as_time: bytes[offset + 12],
                pad,
                name,
                description,
                unit,
            }
        },
        _ => VariableHeader {
            variable_type: 0,
            offset: 0,
            count: 0,
            count_as_time: 0,
            pad: Vec::new(),
            name: Vec::new(),
            description: Vec::new(),
            unit: Vec::new(),
        },
    }
}

/// The `count` variable headers that `bytes` hold one after another; too few
/// bytes are an error.
pub fn read_variable_headers(bytes: &[u8], count: usize) -> (r: Result<Vec<VariableHeader>, IbtError>)
    ensures
        count * VARIABLE_HEADER_LEN <= bytes@.len() ==> (r matches Ok(headers) && headers@.len() == count
            && forall|i: int|
            0 <= i < count ==> variable_header_at(
                #[trigger] headers@[i],
                bytes@,
                i * VARIABLE_HEADER_LEN,
            )),
        count * VARIABLE_HEADER_LEN > bytes@.len() ==> r is Err,
{
    let mut headers: Vec<VariableHeader> = Vec::new();
    let mut index: usize = 0;
    while index < count
        invariant
            index <= count,
            headers@.len() == index,
            index * VARIABLE_HEADER_LEN <= bytes.len(),
            forall|i: int|
                0 <= i < index ==> variable_header_at(
                    #[trigger] headers@[i],
                    bytes@,
                    i * VARIABLE_HEADER_LEN,
                ),
        decreases count - index,
    {
        let offset = index * VARIABLE_HEADER_LEN;
        if bytes.len() - offset < VARIABLE_HEADER_LEN {
            proof {
                assert(count * VARIABLE_HEADER_LEN >= (index + 1) * VARIABLE_HEADER_LEN) by (nonlinear_arith)
                    requires index + 1 <= count;
            }
            return Err(IbtError::OutOfBounds { offset, width: VARIABLE_HEADER_LEN });
        }
        headers.push(read_variable_header(bytes, offset));
        index = index + 1;
    }
    Ok(headers)
}

/// The SDK's code for each variable type.
pub open spec fn type_code(t: VariableType) -> i32 {
    match t {
        VariableType::Char => 0,
        VariableType::Bool => 1,
        VariableType::Int => 2,
        VariableType::BitField => 3,
        VariableType::Float => 4,
        VariableType::Double => 5,
    }
}

/// The variable type that the SDK numbers `code`.
pub fn variable_type_from_code(code: i32) -> (r: Result<VariableType, IbtError>)
    ensures
        0 <= code <= 5 ==> (r matches Ok(t) && type_code(t) == code),
        !(0 <= code <= 5) ==> r == Err::<VariableType, IbtError>(IbtError::UnknownVariableType { code }),
{
    match code {
        0 => Ok(VariableType::Char),
        1 => Ok(VariableType::Bool),
        2 => Ok(VariableType::Int),
        3 => Ok(VariableType::BitField),
        4 => Ok(VariableType::Float),
        5 => Ok(VariableType::Double),
        _ => Err(IbtError::UnknownVariableType { code }),
    }
}

/// The width in bytes of one element of type `t`.
pub open spec fn spec_element_width(t: VariableType) -> nat {
    match t {
        VariableType::Char | VariableType::Bool => 1,
        VariableType::Int | VariableType::BitField | VariableType::Float => 4,
        VariableType::Double => 8,
    }
}

/// The width in bytes of one element of type `t`.
pub fn element_width(t: VariableType) -> (r: usize)
    ensures
        r == spec_element_width(t),
{
    match t {
        VariableType::Char | VariableType::Bool => 1,
        VariableType::Int | VariableType::BitField | VariableType::Float => 4,
        VariableType::Double => 8,
    }
}

/// Whether `value` is what `count` elements of type `t` at `offset` of
/// `record` hold: a scalar when `count` is 1, otherwise an array.
pub open spec fn decoded(record: Seq<u8>, offset: int, t: VariableType, count: nat, value: TelemetryValue) -> bool {
    let w = spec_element_width(t) as int;
    if count == 1 {
        match value {
            TelemetryValue::Char(c) => t == VariableType::Char && c == record[offset],
            TelemetryValue::Bool(b) => t == VariableType::Bool && b == (record[offset] != 0),
            TelemetryValue::Int(i) => t == VariableType::Int && i == le_i32(record, offset),
            TelemetryValue::BitField(u) => t == VariableType::BitField && u == le_u32(record, offset),
            TelemetryValue::Float(f) => t == VariableType::Float && f.0 == le_u32(record, offset),
            TelemetryValue::Double(d) => t == VariableType::Double && d.0 == le_u64(record, offset),
            _ => false,
        }
    } else {
        match value {
            TelemetryValue::Chars(v) => t == VariableType::Char && v@.len() == count && forall|i: int|
                0 <= i < count ==> #[trigger] v@[i] == record[offset + i],
            TelemetryValue::Bools(v) => t == VariableType::Bool && v@.len() == count && forall|i: int|
                0 <= i < count ==> #[trigger] v@[i] == (record[offset + i] != 0),
            TelemetryValue::Ints(v) => t == VariableType::Int && v@.len() == count && forall|i: int|
                0 <= i < count ==> #[trigger] v@[i] == le_i32(record, offset + w * i),
            TelemetryValue::BitFields(v) => t == VariableType::BitField && v@.len() == count && forall|i: int|
                0 <= i < count ==> #[trigger] v@[i] == le_u32(record, offset + w * i),
            TelemetryValue::Floats(v) => t == VariableType::Float && v@.len() == count && forall|i: int|
                0 <= i < count ==> (#[trigger] v@[i]).0 == le_u32(record, offset + w * i),
            TelemetryValue::Doubles(v) => t == VariableType::Double && v@.len() == count && forall|i: int|
                0 <= i < count ==> (#[trigger] v@[i]).0 == le_u64(record, offset + w * i),
            _ => false,
        }
    }
}

/// The value of a variable of type `value_type` with `count` elements at
/// `offset` of one record; a value that runs past the record is an error.
pub fn decode_value(record: &[u8], offset: usize, value_type: VariableType, count: usize) -> (r: Result<TelemetryValue, IbtError>)
    ensures
        offset + count * spec_element_width(value_type) <= record@.len() ==> (r matches Ok(v) && decoded(
            record@,
            offset as int,
            value_type,
            count as nat,
            v,
        )),
        offset + count * spec_element_width(value_type) > record@.len() ==> r is Err,
{
    let width = element_width(value_type);
    let record_len = record.len();
    let total = match count.checked_mul(width) {
        Some(total) => total,
        None => {
            return Err(IbtError::Overflow);
        },
    };
    if offset > record_len || record_len - offset < total {
        return Err(IbtError::OutOfBounds { offset, width: total });
    }
    if count == 1 {
        let value = match value_type {
            VariableType::Char => TelemetryValue::Char(record[offset]),
            VariableType::Bool => TelemetryValue::Bool(record[offset] != 0),
            VariableType::Int => TelemetryValue::Int(read_i32(record, offset)?),
            VariableType::BitField => TelemetryValue::BitField(read_u32(record, offset)?),
            VariableType::Float => TelemetryValue::Float(F32Bits(read_u32(record, offset)?)),
            VariableType::Double => TelemetryValue::Double(read_f64(record, offset)?),
        };
        return Ok(value);
    }
    match value_type {
        VariableType::Char => {
            let v = read_bytes(record, offset, count)?;
            Ok(TelemetryValue::Chars(v))
        },
        VariableType::Bool => {
            let mut v: Vec<bool> = Vec::new();
            let mut i: usize = 0;
            while i < count
                invariant
                    i <= count,
                    offset + count <= record.len(),
                    v@.len() == i,
                    forall|j: int| 0 <= j < i ==> #[trigger] v@[j] == (record@[offset + j] != 0),
                decreases count - i,
            {
                v.push(record[offset + i] != 0);
                i = i + 1;
            }
            Ok(TelemetryValue::Bools(v))
        },
        VariableType::Int => {
            let mut v: Vec<i32> = Vec::new();
            let mut i: usize = 0;
            while i < count
                invariant
                    i <= count,
                    offset + count * 4 <= record.len(),
                    v@.len() == i,
                    forall|j: int| 0 <= j < i ==> #[trigger] v@[j] == le_i32(record@, offset + 4 * j),
                decreases count - i,
            {
                proof {
                    assert(4 * i + 4 <= count * 4) by (nonlinear_arith) requires i < count;
                }
                v.push(read_i32(record, offset + 4 * i)?);
                i = i + 1;
            }
            Ok(TelemetryValue::Ints(v))
        },
        VariableType::BitField => {
            let mut v: Vec<u32> = Vec::new();
            let mut i: usize = 0;
            while i < count
                invariant
                    i <= count,
                    offset + count * 4 <= record.len(),
                    v@.len() == i,
                    forall|j: int| 0 <= j < i ==> #[trigger] v@[j] == le_u32(record@, offset + 4 * j),
                decreases count - i,
            {
                proof {
                    assert(4 * i + 4 <= count * 4) by (nonlinear_arith) requires i < count;
                }
                v.push(read_u32(record, offset + 4 * i)?);
                i = i + 1;
            }
            Ok(TelemetryValue::BitFields(v))
        },
        VariableType::Float => {
            let mut v: Vec<F32Bits> = Vec::new();
            let mut i: usize = 0;
            while i < count
                invariant
                    i <= count,
                    offset + count * 4 <= record.len(),
                    v@.len() == i,
                    forall|j: int| 0 <= j < i ==> (#[trigger] v@[j]).0 == le_u32(record@, offset + 4 * j),
                decreases count - i,
            {
                proof {
                    assert(4 * i + 4 <= count * 4) by (nonlinear_arith) requires i < count;
                }
                v.push(F32Bits(read_u32(record, offset + 4 * i)?));
                i = i + 1;
            }
            Ok(TelemetryValue::Floats(v))
        },
        VariableType::Double => {
            let mut v: Vec<F64Bits> = Vec::new();
            let mut i: usize = 0;
            while i < count
                invariant
                    i <= count,
                    offset + count * 8 <= record.len(),
                    v@.len() == i,
                    forall|j: int| 0 <= j < i ==> (#[trigger] v@[j]).0 == le_u64(record@, offset + 8 * j),
                decreases count - i,
            {
                proof {
                    assert(8 * i + 8 <= count * 8) by (nonlinear_arith) requires i < count;
                }
                v.push(read_f64(record, offset + 8 * i)?);
                i = i + 1;
            }
            Ok(TelemetryValue::Doubles(v))
        },
    }
}

/// A count or length read from the file, which must not be negative.
pub fn nonnegative_len(value: i32, label: &str) -> (r: Result<usize, IbtError>)
    ensures
        value >= 0 ==> r == Ok::<usize, IbtError>(value as usize),
        value < 0 ==> (r matches Err(IbtError::Negative { label: l }) && l@ == label@),
{
    if value < 0 {
        return Err(IbtError::Negative { label: label.to_string() });
    }
    Ok(value as usize)
}

/// The tick rate of a recording, which must be positive.
pub fn positive_tick_rate(tick_rate: i32) -> (r: Result<u32, IbtError>)
    ensures
        tick_rate > 0 ==> r == Ok::<u32, IbtError>(tick_rate as u32),
        tick_rate <= 0 ==> r == Err::<u32, IbtError>(IbtError::TickRateNotPositive),
{
    if tick_rate <= 0 {
        return Err(IbtError::TickRateNotPositive);
    }
    Ok(tick_rate as u32)
}

/// Where the records of a recording start: the offset of its one buffer,
/// which must not be negative.
pub fn record_data_offset(buffer_offset: i32) -> (r: Result<u64, IbtError>)
    ensures
        buffer_offset >= 0 ==> r == Ok::<u64, IbtError>(buffer_offset as u64),
        buffer_offset < 0 ==> r == Err::<u64, IbtError>(IbtError::NegativeRecordOffset),
{
    if buffer_offset < 0 {
        return Err(IbtError::NegativeRecordOffset);
    }
    Ok(buffer_offset as u64)
}

/// Checks that the region named `label`, ending at `end`, lies within a file
/// of `file_len` bytes.
pub fn validate_range(end: usize, file_len: u64, label: &str) -> (r: Result<(), IbtError>)
    ensures
        end <= file_len ==> r is Ok,
        end > file_len ==> (r matches Err(IbtError::BeyondEnd { label: l }) && l@ == label@),
{
    if end as u64 > file_len {
        return Err(IbtError::BeyondEnd { label: label.to_string() });
    }
    Ok(())
}

/// Checks that `record_count` records of `record_len` bytes from
/// `record_offset` lie within a file of `file_len` bytes.
pub fn validate_record_data(record_offset: u64, record_len: usize, record_count: usize, file_len: u64) -> (r: Result<(), IbtError>)
    ensures
        record_len * record_count > usize::MAX ==> r == Err::<(), IbtError>(IbtError::Overflow),
        record_len * record_count <= usize::MAX && record_offset + record_len * record_count > u64::MAX
            ==> r == Err::<(), IbtError>(IbtError::Overflow),
        record_len * record_count <= usize::MAX && record_offset + record_len * record_count <= u64::MAX
            ==> r == (if record_offset + record_len * record_count <= file_len {
            Ok::<(), IbtError>(())
        } else {
            Err::<(), IbtError>(IbtError::RecordDataBeyondEnd)
        }),
{
    let records_len = match record_len.checked_mul(record_count) {
        Some(len) => len,
        None => {
            return Err(IbtError::Overflow);
        },
    };
    let record_end = match record_offset.checked_add(records_len as u64) {
        Some(end) => end,
        None => {
            return Err(IbtError::Overflow);
        },
    };
    if record_end > file_len {
        return Err(IbtError::RecordDataBeyondEnd);
    }
    Ok(())
}

/// Where record `index` starts, and the packet id it gets; an index past the
/// last record is an error.
pub fn record_location(record_offset: u64, record_len: usize, record_count: usize, index: usize) -> (r: Result<(u64, i32), IbtError>)
    ensures
        index >= record_count ==> r == Err::<(u64, i32), IbtError>(IbtError::RecordIndexOutOfRange { index }),
        r matches Ok((offset, packet_id)) ==> index < record_count && offset == record_offset + record_len * index
            && packet_id == index,
        index < record_count && record_len * index <= usize::MAX && record_offset + record_len * index
            <= u64::MAX && index <= i32::MAX ==> r is Ok,
{
    if index >= record_count {
        return Err(IbtError::RecordIndexOutOfRange { index });
    }
    let relative = match record_len.checked_mul(index) {
        Some(relative) => relative,
        None => {
            return Err(IbtError::Overflow);
        },
    };
    let offset = match record_offset.checked_add(relative as u64) {
        Some(offset) => offset,
        None => {
            return Err(IbtError::Overflow);
        },
    };
    if index > i32::MAX as usize {
        return Err(IbtError::RecordIndexTooLarge { index });
    }
    Ok((offset, index as i32))
}

/// A variable header, as plain values.
pub struct VariableHeaderView {
    pub variable_type: int,
    pub offset: int,
    pub count: int,
    pub count_as_time: u8,
    pub pad: Seq<u8>,
    pub name: Seq<u8>,
    pub description: Seq<u8>,
    pub unit: Seq<u8>,
}

/// The variable header held in the `VARIABLE_HEADER_LEN` bytes of `b` at `at`.
pub open spec fn variable_header_view_at(b: Seq<u8>, at: int) -> VariableHeaderView {
    VariableHeaderView {
        variable_type: le_i32(b, at),
        offset: le_i32(b, at + 4),
        count: le_i32(b, at + 8),
        count_as_time: b[at + 12],
        pad: b.subrange(at + 13, at + 16),
        name: b.subrange(at + 16, at + 48),
        description: b.subrange(at + 48, at + 112),
        unit: b.subrange(at + 112, at + 144),
    }
}

/// The plain form of a variable header.
pub open spec fn header_view(h: VariableHeader) -> VariableHeaderView {
    VariableHeaderView {
        variable_type: h.variable_type as int,
        offset: h.offset as int,
        count: h.count as int,
        count_as_time: h.count_as_time,
        pad: h.pad@,
        name: h.name@,
        description: h.description@,
        unit: h.unit@,
    }
}

/// The width of one element of the variable type that the SDK numbers `code`.
pub open spec fn code_width(code: int) -> int {
    if code <= 1 {
        1
    } else if code <= 4 {
        4
    } else {
        8
    }
}

/// Why variable `index` cannot be read from a record of `buffer_len` bytes,
/// if it cannot: its type is unknown, or its place is negative or runs past
/// the end of the record.
pub open spec fn variable_error(h: VariableHeaderView, index: int, buffer_len: int) -> Option<IbtErrorView> {
    if !(0 <= h.variable_type <= 5) {
        Some(IbtErrorView::UnknownVariableType { code: h.variable_type as i32 })
    } else if h.offset < 0 || h.count < 0 || h.offset + h.count * code_width(h.variable_type) > buffer_len {
        Some(IbtErrorView::VariableOutsideRecord { index: index as usize })
    } else {
        None
    }
}

/// The first error among the first `n` variables.
pub open spec fn variables_error(vars: Seq<VariableHeaderView>, buffer_len: int, n: nat) -> Option<IbtErrorView>
    decreases n,
{
    if n == 0 {
        None
    } else {
        match variables_error(vars, buffer_len, (n - 1) as nat) {
            Some(e) => Some(e),
            None => variable_error(vars[n - 1], n - 1, buffer_len),
        }
    }
}

/// Whether the double with bit pattern `b` is neither infinite nor NaN.
pub open spec fn finite_f64(b: u64) -> bool {
    (b >> 52u64) & 0x7ffu64 != 0x7ffu64
}

/// Whether the double with bit pattern `end` is not below the one with bit
/// pattern `start`, for finite values (the sign bit and the magnitude bits
/// order them; minus zero equals zero).
pub open spec fn times_in_order(start: u64, end: u64) -> bool {
    let start_negative = (start >> 63u64) == 1u64;
    let end_negative = (end >> 63u64) == 1u64;
    let start_magnitude = start & 0x7fff_ffff_ffff_ffffu64;
    let end_magnitude = end & 0x7fff_ffff_ffff_ffffu64;
    if !start_negative && !end_negative {
        end_magnitude >= start_magnitude
    } else if !start_negative && end_negative {
        end_magnitude == 0 && start_magnitude == 0
    } else if start_negative && !end_negative {
        true
    } else {
        end_magnitude <= start_magnitude
    }
}

/// `s` up to its first zero byte.
pub open spec fn until_nul(s: Seq<u8>) -> Seq<u8>
    decreases s.len(),
{
    if s.len() == 0 {
        s
    } else if s[0] == 0 {
        Seq::empty()
    } else {
        seq![s[0]] + until_nul(s.drop_first())
    }
}

/// What an `.ibt` file holds besides its records, as plain values.
pub struct IbtLayoutView {
    pub start_date: int,
    pub start_time: u64,
    pub end_time: u64,
    pub lap_count: nat,
    pub record_count: nat,
    pub tick_rate: u32,
    pub record_len: nat,
    pub record_offset: nat,
    pub session_info_update: int,
    pub variables: Seq<VariableHeaderView>,
    pub session_info: Seq<u8>,
}

/// What an `.ibt` file holds besides its records: its summary, where its
/// records lie, its variable headers and its session information.
#[derive(Debug, Clone, PartialEq, Eq)]
pub struct IbtLayout {
    pub start_date: i64,
    pub start_time: F64Bits,
    pub end_time: F64Bits,
    pub lap_count: usize,
    pub record_count: usize,
    pub tick_rate: u32,
    pub record_len: usize,
    pub record_offset: u64,
    pub session_info_update: i32,
    pub variables: Vec<VariableHeader>,
    pub session_info: Vec<u8>,
}

/// The plain form of a layout.
pub open spec fn layout_view(l: IbtLayout) -> IbtLayoutView {
    IbtLayoutView {
        start_date: l.start_date as int,
        start_time: l.start_time.0,
        end_time: l.end_time.0,
        lap_count: l.lap_count as nat,
        record_count: l.record_count as nat,
        tick_rate: l.tick_rate,
        record_len: l.record_len as nat,
        record_offset: l.record_offset as nat,
        session_info_update: l.session_info_update as int,
        variables: l.variables@.map_values(|h: VariableHeader| header_view(h)),
        session_info: l.session_info@,
    }
}

/// The plain form of the outcome of reading a layout.
pub open spec fn layout_result_view(r: Result<IbtLayout, IbtError>) -> Result<IbtLayoutView, IbtErrorView> {
    match r {
        Ok(l) => Ok(layout_view(l)),
        Err(e) => Err(error_view(e)),
    }
}

/// The larger of `a` and `b`.
pub open spec fn larger(a: int, b: int) -> int {
    if a >= b { a } else { b }
}

/// The layout of an `.ibt` file of `file_len` bytes whose first bytes are
/// `meta`, checked in turn: the SDK header, one telemetry buffer, a positive
/// tick rate, the disk header with finite and ordered times, counts that are
/// not negative, the places of the variable headers and of the session
/// information, record data that starts after them and ends within the
/// file, and variables that fit a record.
pub open spec fn ibt_layout_of(meta: Seq<u8>, file_len: nat) -> Result<IbtLayoutView, IbtErrorView> {
    if meta.len() < HEADER_LEN {
        Err(IbtErrorView::OutOfBounds { offset: 0, width: HEADER_LEN })
    } else if le_i32(meta, 24) < 0 {
        Err(IbtErrorView::Negative { label: "variable count"@ })
    } else if le_i32(meta, 36) < 0 {
        Err(IbtErrorView::Negative { label: "buffer length"@ })
    } else if le_i32(meta, 32) != 1 {
        Err(IbtErrorView::BufferCount { found: le_i32(meta, 32) as i32 })
    } else if le_i32(meta, 8) <= 0 {
        Err(IbtErrorView::TickRateNotPositive)
    } else if meta.len() < HEADER_LEN + DISK_HEADER_LEN {
        Err(IbtErrorView::OutOfBounds { offset: HEADER_LEN, width: DISK_HEADER_LEN })
    } else if !finite_f64(le_u64(meta, 120) as u64) || !finite_f64(le_u64(meta, 128) as u64) {
        Err(IbtErrorView::NonFiniteTimes)
    } else if !times_in_order(le_u64(meta, 120) as u64, le_u64(meta, 128) as u64) {
        Err(IbtErrorView::EndBeforeStart)
    } else if le_i32(meta, 136) < 0 {
        Err(IbtErrorView::Negative { label: "lap count"@ })
    } else if le_i32(meta, 140) < 0 {
        Err(IbtErrorView::Negative { label: "record count"@ })
    } else if le_i32(meta, 52) < 0 {
        Err(IbtErrorView::NegativeRecordOffset)
    } else {
        ibt_regions_of(meta, file_len)
    }
}

/// The second half of `ibt_layout_of`: the regions of the file.
pub open spec fn ibt_regions_of(meta: Seq<u8>, file_len: nat) -> Result<IbtLayoutView, IbtErrorView> {
    let n = le_i32(meta, 24);
    let buffer_len = le_i32(meta, 36);
    let record_count = le_i32(meta, 140);
    let record_offset = le_i32(meta, 52);
    let vh_offset = le_i32(meta, 28);
    let vh_len = n * VARIABLE_HEADER_LEN;
    let vh_end = vh_offset + vh_len;
    let session_len = le_i32(meta, 16);
    let session_offset = le_i32(meta, 20);
    let session_end = session_offset + session_len;
    let records_len = buffer_len * record_count;
    if vh_len > usize::MAX {
        Err(IbtErrorView::Overflow)
    } else if vh_offset < 0 {
        Err(IbtErrorView::Negative { label: "variable header offset"@ })
    } else if vh_end > usize::MAX {
        Err(IbtErrorView::Overflow)
    } else if session_len < 0 {
        Err(IbtErrorView::Negative { label: "session info length"@ })
    } else if session_offset < 0 {
        Err(IbtErrorView::Negative { label: "session info offset"@ })
    } else if session_end > usize::MAX {
        Err(IbtErrorView::Overflow)
    } else if record_offset < larger(larger(HEADER_LEN + DISK_HEADER_LEN, vh_end), session_end) {
        Err(IbtErrorView::MetadataOverlap)
    } else if vh_end > file_len {
        Err(IbtErrorView::BeyondEnd { label: "variable headers"@ })
    } else if session_end > file_len {
        Err(IbtErrorView::BeyondEnd { label: "session info"@ })
    } else if records_len > usize::MAX || record_offset + records_len > u64::MAX {
        Err(IbtErrorView::Overflow)
    } else if record_offset + records_len > file_len {
        Err(IbtErrorView::RecordDataBeyondEnd)
    } else if vh_end > meta.len() {
        Err(IbtErrorView::OutOfBounds { offset: vh_offset as usize, width: vh_len as usize })
    } else {
        let vars = Seq::new(
            n as nat,
            |i: int| variable_header_view_at(meta.subrange(vh_offset, vh_end), i * VARIABLE_HEADER_LEN),
        );
        match variables_error(vars, buffer_len, n as nat) {
            Some(e) => Err(e),
            None => if session_end > meta.len() {
                Err(IbtErrorView::OutOfBounds { offset: session_offset as usize, width: session_len as usize })
            } else {
                Ok(
                    IbtLayoutView {
                        start_date: le_i64(meta, 112),
                        start_time: le_u64(meta, 120) as u64,
                        end_time: le_u64(meta, 128) as u64,
                        lap_count: le_i32(meta, 136) as nat,
                        record_count: record_count as nat,
                        tick_rate: le_i32(meta, 8) as u32,
                        record_len: buffer_len as nat,
                        record_offset: record_offset as nat,
                        session_info_update: le_i32(meta, 12),
                        variables: vars,
                        session_info: until_nul(meta.subrange(session_offset, session_end)),
                    },
                )
            },
        }
    }
}

/// Whether the double with bit pattern `b` is neither infinite nor NaN.
pub fn is_finite_f64(b: u64) -> (r: bool)
    ensures
        r == finite_f64(b),
{
    (b >> 52u64) & 0x7ffu64 != 0x7ffu64
}

/// Whether the double with bit pattern `end` is not below the one with bit
/// pattern `start`, both finite.
pub fn times_ordered(start: u64, end: u64) -> (r: bool)
    ensures
        r == times_in_order(start, end),
{
    let start_negative = (start >> 63u64) == 1u64;
    let end_negative = (end >> 63u64) == 1u64;
    let start_magnitude = start & 0x7fff_ffff_ffff_ffffu64;
    let end_magnitude = end & 0x7fff_ffff_ffff_ffffu64;
    if !start_negative && !end_negative {
        end_magnitude >= start_magnitude
    } else if !start_negative && end_negative {
        end_magnitude == 0 && start_magnitude == 0
    } else if start_negative && !end_negative {
        true
    } else {
        end_magnitude <= start_magnitude
    }
}

proof fn lemma_until_nul(s: Seq<u8>, i: int)
    requires
        0 <= i <= s.len(),
        forall|j: int| 0 <= j < i ==> s[j] != 0,
        i == s.len() || s[i] == 0,
    ensures
        until_nul(s) == s.take(i),
    decreases s.len(),
{
    if s.len() == 0 {
        assert(s.take(i) =~= s);
    } else if s[0] == 0 {
        assert(i == 0);
        assert(s.take(0) =~= Seq::<u8>::empty());
    } else {
        let rest = s.drop_first();
        assert forall|j: int| 0 <= j < i - 1 implies rest[j] != 0 by {
            assert(rest[j] == s[j + 1]);
        }
        lemma_until_nul(rest, i - 1);
        assert(seq![s[0]] + rest.take(i - 1) =~= s.take(i));
    }
}

/// The bytes of `s` before its first zero byte.
pub fn bytes_until_nul(s: &[u8]) -> (r: Vec<u8>)
    ensures
        r@ == until_nul(s@),
{
    let mut out: Vec<u8> = Vec::new();
    let mut i: usize = 0;
    while i < s.len() && s[i] != 0
        invariant
            i <= s@.len(),
            out@ == s@.take(i as int),
            forall|j: int| 0 <= j < i ==> s@[j] != 0,
        decreases s@.len() - i,
    {
        out.push(s[i]);
        i = i + 1;
        assert(out@ =~= s@.take(i as int));
    }
    proof {
        lemma_until_nul(s@, i as int);
    }
    out
}

proof fn lemma_variables_error_stops(vars: Seq<VariableHeaderView>, buffer_len: int, i: nat, n: nat)
    requires
        i <= n,
        variables_error(vars, buffer_len, i) is Some,
    ensures
        variables_error(vars, buffer_len, n) == variables_error(vars, buffer_len, i),
    decreases n,
{
    if n > i {
        lemma_variables_error_stops(vars, buffer_len, i, (n - 1) as nat);
    }
}

/// The first variable that a record of `buffer_len` bytes cannot hold, as an
/// error, if any.
pub fn check_variables(headers: &Vec<VariableHeader>, buffer_len: usize) -> (r: Result<(), IbtError>)
    ensures
        match variables_error(headers@.map_values(|h: VariableHeader| header_view(h)), buffer_len as int, headers@.len()) {
            Some(e) => r matches Err(err) && error_view(err) == e,
            None => r is Ok,
        },
{
    let ghost views = headers@.map_values(|h: VariableHeader| header_view(h));
    let mut i: usize = 0;
    while i < headers.len()
        invariant
            i <= headers@.len(),
            views == headers@.map_values(|h: VariableHeader| header_view(h)),
            variables_error(views, buffer_len as int, i as nat) is None,
        decreases headers@.len() - i,
    {
        let h = &headers[i];
        assert(views[i as int] == header_view(headers@[i as int]));
        if h.variable_type < 0 || h.variable_type > 5 {
            let err = IbtError::UnknownVariableType { code: h.variable_type };
            proof {
                lemma_variables_error_stops(views, buffer_len as int, (i + 1) as nat, headers@.len());
            }
            return Err(err);
        }
        let width: u64 = if h.variable_type <= 1 {
            1
        } else if h.variable_type <= 4 {
            4
        } else {
            8
        };
        let outside = if h.offset < 0 || h.count < 0 {
            true
        } else {
            let count = h.count as u64;
            proof {
                assert(count * width <= 0x8000_0000u64 * 8) by (nonlinear_arith)
                    requires
                        count < 0x8000_0000u64,
                        width <= 8,
                ;
            }
            (h.offset as u64) + count * width > buffer_len as u64
        };
        if outside {
            proof {
                lemma_variables_error_stops(views, buffer_len as int, (i + 1) as nat, headers@.len());
            }
            return Err(IbtError::VariableOutsideRecord { index: i });
        }
        i = i + 1;
    }
    Ok(())
}

proof fn lemma_variables_error_none(vars: Seq<VariableHeaderView>, buffer_len: int, n: nat, i: int)
    requires
        0 <= i < n,
        variables_error(vars, buffer_len, n) is None,
    ensures
        variable_error(vars[i], i, buffer_len) is None,
    decreases n,
{
    if i < n - 1 {
        lemma_variables_error_none(vars, buffer_len, (n - 1) as nat, i);
    }
}

/// The variable type that the SDK numbers `code`, for the codes it defines.
pub open spec fn code_type(code: int) -> VariableType {
    if code == 0 {
        VariableType::Char
    } else if code == 1 {
        VariableType::Bool
    } else if code == 2 {
        VariableType::Int
    } else if code == 3 {
        VariableType::BitField
    } else if code == 4 {
        VariableType::Float
    } else {
        VariableType::Double
    }
}

/// The value of every variable of `variables` in one record, in their order.
/// A record decodes exactly when every variable has a known type and lies
/// within it; otherwise the error names the first variable that does not,
/// as `parse_ibt_layout` does for records of the file's record length.
pub fn decode_record(variables: &Vec<VariableHeader>, record: &[u8]) -> (r: Result<Vec<TelemetryValue>, IbtError>)
    ensures
        match variables_error(
            variables@.map_values(|h: VariableHeader| header_view(h)),
            record@.len() as int,
            variables@.len(),
        ) {
            Some(e) => r matches Err(err) && error_view(err) == e,
            None => r matches Ok(values) && values@.len() == variables@.len() && forall|i: int|
                0 <= i < variables@.len() ==> decoded(
                    record@,
                    variables@[i].offset as int,
                    code_type(variables@[i].variable_type as int),
                    variables@[i].count as nat,
                    #[trigger] values@[i],
                ),
        },
{
    let ghost views = variables@.map_values(|h: VariableHeader| header_view(h));
    match check_variables(variables, record.len()) {
        Err(e) => {
            return Err(e);
        },
        Ok(()) => {},
    }
    let mut values: Vec<TelemetryValue> = Vec::new();
    let mut i: usize = 0;
    while i < variables.len()
        invariant
            i <= variables@.len(),
            views == variables@.map_values(|h: VariableHeader| header_view(h)),
            variables_error(views, record@.len() as int, variables@.len()) is None,
            values@.len() == i,
            forall|j: int|
                0 <= j < i ==> decoded(
                    record@,
                    variables@[j].offset as int,
                    code_type(variables@[j].variable_type as int),
                    variables@[j].count as nat,
                    #[trigger] values@[j],
                ),
        decreases variables@.len() - i,
    {
        let h = &variables[i];
        proof {
            lemma_variables_error_none(views, record@.len() as int, variables@.len(), i as int);
            assert(views[i as int] == header_view(variables@[i as int]));
        }
        let t = match variable_type_from_code(h.variable_type) {
            Ok(t) => t,
            Err(e) => {
                return Err(e);
            },
        };
        assert(t == code_type(h.variable_type as int));
        assert(spec_element_width(t) == code_width(h.variable_type as int));
        let value = match decode_value(record, h.offset as usize, t, h.count as usize) {
            Ok(v) => v,
            Err(e) => {
                return Err(e);
            },
        };
        values.push(value);
        i = i + 1;
    }
    Ok(values)
}

/// Every record of a file whose layout was accepted decodes: its variables
/// have known types and lie within a record of the file's record length.
pub proof fn lemma_accepted_layout_records_decode(meta: Seq<u8>, file_len: nat)
    requires
        ibt_layout_of(meta, file_len) is Ok,
    ensures
        ({
            let l = ibt_layout_of(meta, file_len)->Ok_0;
            variables_error(l.variables, l.record_len as int, l.variables.len()) is None
        }),
{
}

/// The layout of an `.ibt` file of `file_len` bytes from its first bytes
/// `meta`, which hold at least its headers and its session information.
pub fn parse_ibt_layout(meta: &[u8], file_len: u64) -> (r: Result<IbtLayout, IbtError>)
    ensures
        layout_result_view(r) == ibt_layout_of(meta@, file_len as nat),
{
    if meta.len() < HEADER_LEN {
        return Err(IbtError::OutOfBounds { offset: 0, width: HEADER_LEN });
    }
    let header = match read_header(meta) {
        Ok(h) => h,
        Err(e) => {
            return Err(e);
        },
    };
    proof {
        assert(header.variable_buffers@[0] == buffer_at(meta@, buffer_offset_in_header(0)));
    }
    let num_variables = header.num_variables;
    let buffer_len = header.buffer_len;
    if num_variables < 0 {
        return Err(IbtError::Negative { label: to_owned_string("variable count") });
    }
    if buffer_len < 0 {
        return Err(IbtError::Negative { label: to_owned_string("buffer length") });
    }
    if header.num_buffers != 1 {
        return Err(IbtError::BufferCount { found: header.num_buffers });
    }
    let tick_rate = match positive_tick_rate(header.tick_rate) {
        Ok(t) => t,
        Err(e) => {
            return Err(e);
        },
    };
    if meta.len() < HEADER_LEN + DISK_HEADER_LEN {
        return Err(IbtError::OutOfBounds { offset: HEADER_LEN, width: DISK_HEADER_LEN });
    }
    let disk_bytes = vstd::slice::slice_subrange(meta, HEADER_LEN, HEADER_LEN + DISK_HEADER_LEN);
    let disk = match read_disk_header(disk_bytes) {
        Ok(d) => d,
        Err(e) => {
            return Err(e);
        },
    };
    proof {
        assert(disk_bytes@ =~= meta@.subrange(112, 144));
        assert(le_u64(disk_bytes@, 8) == le_u64(meta@, 120));
        assert(le_u64(disk_bytes@, 16) == le_u64(meta@, 128));
        assert(le_u64(disk_bytes@, 0) == le_u64(meta@, 112));
        assert(le_i32(disk_bytes@, 24) == le_i32(meta@, 136));
        assert(le_i32(disk_bytes@, 28) == le_i32(meta@, 140));
    }
    let start_time = disk.start_time.0;
    let end_time = disk.end_time.0;
    if !is_finite_f64(start_time) || !is_finite_f64(end_time) {
        return Err(IbtError::NonFiniteTimes);
    }
    if !times_ordered(start_time, end_time) {
        return Err(IbtError::EndBeforeStart);
    }
    let lap_count = match nonnegative_len(disk.lap_count, "lap count") {
        Ok(n) => n,
        Err(e) => {
            return Err(e);
        },
    };
    let records = match nonnegative_len(disk.record_count, "record count") {
        Ok(n) => n,
        Err(e) => {
            return Err(e);
        },
    };
    let record_start = match record_data_offset(header.variable_buffers[0].buffer_offset) {
        Ok(o) => o,
        Err(e) => {
            return Err(e);
        },
    };
    let n = num_variables as usize;
    let vh_len = match n.checked_mul(VARIABLE_HEADER_LEN) {
        Some(len) => len,
        None => {
            return Err(IbtError::Overflow);
        },
    };
    let vh_offset_raw = header.variable_header_offset;
    if vh_offset_raw < 0 {
        return Err(IbtError::Negative { label: to_owned_string("variable header offset") });
    }
    let vh_offset = vh_offset_raw as usize;
    let vh_end = match vh_offset.checked_add(vh_len) {
        Some(end) => end,
        None => {
            return Err(IbtError::Overflow);
        },
    };
    let session_len_raw = header.session_info_len;
    let session_offset_raw = header.session_info_offset;
    if session_len_raw < 0 {
        return Err(IbtError::Negative { label: to_owned_string("session info length") });
    }
    if session_offset_raw < 0 {
        return Err(IbtError::Negative { label: to_owned_string("session info offset") });
    }
    let session_len = session_len_raw as usize;
    let session_offset = session_offset_raw as usize;
    let session_end = match session_offset.checked_add(session_len) {
        Some(end) => end,
        None => {
            return Err(IbtError::Overflow);
        },
    };
    let mut metadata_end: usize = HEADER_LEN + DISK_HEADER_LEN;
    if vh_end > metadata_end {
        metadata_end = vh_end;
    }
    if session_end > metadata_end {
        metadata_end = session_end;
    }
    if record_start < metadata_end as u64 {
        return Err(IbtError::MetadataOverlap);
    }
    match validate_range(vh_end, file_len, "variable headers") {
        Ok(()) => {},
        Err(e) => {
            return Err(e);
        },
    }
    match validate_range(session_end, file_len, "session info") {
        Ok(()) => {},
        Err(e) => {
            return Err(e);
        },
    }
    let record_len = buffer_len as usize;
    match validate_record_data(record_start, record_len, records, file_len) {
        Ok(()) => {},
        Err(e) => {
            return Err(e);
        },
    }
    if vh_end > meta.len() {
        return Err(IbtError::OutOfBounds { offset: vh_offset, width: vh_len });
    }
    let header_bytes = vstd::slice::slice_subrange(meta, vh_offset, vh_end);
    let variables = match read_variable_headers(header_bytes, n) {
        Ok(headers) => headers,
        Err(e) => {
            return Err(e);
        },
    };
    let ghost vars = Seq::new(
        n as nat,
        |i: int| variable_header_view_at(meta@.subrange(vh_offset as int, vh_end as int), i * VARIABLE_HEADER_LEN),
    );
    assert(variables@.map_values(|h: VariableHeader| header_view(h)) =~= vars) by {
        assert forall|i: int| 0 <= i < n implies #[trigger] header_view(variables@[i]) == vars[i] by {
            assert(variable_header_at(variables@[i], header_bytes@, i * VARIABLE_HEADER_LEN));
        }
    }
    match check_variables(&variables, record_len) {
        Ok(()) => {},
        Err(e) => {
            return Err(e);
        },
    }
    if session_end > meta.len() {
        return Err(IbtError::OutOfBounds { offset: session_offset, width: session_len });
    }
    let session_bytes = vstd::slice::slice_subrange(meta, session_offset, session_end);
    let session_info = bytes_until_nul(session_bytes);
    Ok(
        IbtLayout {
            start_date: disk.start_date,
            start_time: F64Bits(start_time),
            end_time: F64Bits(end_time),
            lap_count,
            record_count: records,
            tick_rate,
            record_len,
            record_offset: record_start,
            session_info_update: header.session_info_update,
            variables,
            session_info,
        },
    )
}

} // verus!
