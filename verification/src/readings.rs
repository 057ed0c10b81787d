//! Snapshots of the operating system's counters for this process.

use crate::error::ReadingsError;
use crate::procstat::{parse_u64, parsed_u64, space_fields, split_spaces};
use crate::time::Duration;
use vstd::prelude::*;

verus! {

/// One snapshot of the process's resource counters.
#[derive(Clone, Copy, Debug, PartialEq, Eq, Structural)]
pub struct OsReadings {
    /// Process virtual size, in bytes.
    pub virtual_size: u64,
    /// Process resident size, in bytes.
    pub resident_size: u64,
    /// Process resident size high-water mark, in bytes.
    pub resident_size_max: u64,
    /// CPU time spent in userland.
    pub user_time: Duration,
    /// CPU time spent in the kernel.
    pub system_time: Duration,
    /// Minor faults counter.
    pub minor_fault: u64,
    /// Major faults counter.
    pub major_fault: u64,
}

impl OsReadings {
    /// The snapshot with every counter at zero, which stands for a platform
    /// that has no source of readings.
    pub open spec fn spec_zeroed() -> OsReadings {
        OsReadings {
            virtual_size: 0,
            resident_size: 0,
            resident_size_max: 0,
            user_time: Duration { nanos: 0 },
            system_time: Duration { nanos: 0 },
            minor_fault: 0,
            major_fault: 0,
        }
    }

    /// The snapshot with every counter at zero.
    pub fn zeroed() -> (r: OsReadings)
        ensures
            r == Self::spec_zeroed(),
    {
        OsReadings {
            virtual_size: 0,
            resident_size: 0,
            resident_size_max: 0,
            user_time: Duration::zero(),
            system_time: Duration::zero(),
            minor_fault: 0,
            major_fault: 0,
        }
    }
}

/// The resource usage that the system reports for this process, as far as
/// the readings use it.
#[derive(Clone, Copy, Debug, PartialEq, Eq, Structural)]
pub struct RUsage {
    /// Whole seconds of CPU time in userland.
    pub utime_sec: u64,
    /// Microseconds of CPU time in userland beyond the whole seconds.
    pub utime_usec: u64,
    /// Whole seconds of CPU time in the kernel.
    pub stime_sec: u64,
    /// Microseconds of CPU time in the kernel beyond the whole seconds.
    pub stime_usec: u64,
    /// Resident size high-water mark, in kilobytes.
    pub maxrss: u64,
    /// Minor faults counter.
    pub minflt: u64,
    /// Major faults counter.
    pub majflt: u64,
}

/// The sizes that macOS reports for the task of this process, in bytes.
#[derive(Clone, Copy, Debug, PartialEq, Eq, Structural)]
pub struct TaskInfo {
    pub virtual_size: u64,
    pub resident_size: u64,
    pub resident_size_max: u64,
}

/// A time as Windows counts it: the two halves of a 64-bit number of steps
/// of 100 nanoseconds.
#[derive(Clone, Copy, Debug, PartialEq, Eq, Structural)]
pub struct FileTime {
    pub high: u32,
    pub low: u32,
}

/// The memory counters that Windows reports for this process.
#[derive(Clone, Copy, Debug, PartialEq, Eq, Structural)]
pub struct MemoryCounters {
    /// Working set size, in bytes.
    pub working_set_size: u64,
    /// Working set high-water mark, in bytes.
    pub peak_working_set_size: u64,
    /// Page faults counter.
    pub page_fault_count: u64,
}

/// What a platform hands over for one snapshot, before it is put into the
/// common shape.
pub enum RawReadings {
    /// Linux: the process-status line, or `None` where it could not be
    /// read, and the resource usage.
    Linux { stat: Option<String>, usage: RUsage },
    /// macOS: the task's sizes and the resource usage.
    MacOs { info: TaskInfo, usage: RUsage },
    /// Windows: the process times and the memory counters.
    Windows { kernel_time: FileTime, user_time: FileTime, memory: MemoryCounters },
    /// A platform without a source of readings.
    Unsupported,
}

/// The place of the virtual size among the fields of the status line.
pub const STAT_VIRTUAL_SIZE: usize = 22;

/// The place of the resident size, in pages, among the fields of the status
/// line.
pub const STAT_RESIDENT_PAGES: usize = 23;

/// The size of the pages in which the status line counts the resident size.
pub const PAGE_BYTES: u64 = 4096;

/// The CPU time of `secs` seconds and `usecs` microseconds.
pub open spec fn cpu_time(secs: u64, usecs: u64) -> Duration {
    Duration { nanos: (secs * 1_000_000_000 + usecs * 1_000) as u128 }
}

/// The number in a field of the status line; a field that is no number
/// counts as zero.
pub open spec fn field_number(field: Seq<char>) -> u64 {
    match parsed_u64(field) {
        Some(value) => value,
        None => 0,
    }
}

/// The readings of Linux. The status line gives the virtual size in bytes
/// and the resident size in pages; the resource usage gives the high-water
/// mark in kilobytes, the CPU times and the fault counters. There are none
/// where the status line is short of fields or a size in bytes does not fit
/// 64 bits.
pub open spec fn linux_readings(stat: Seq<char>, usage: RUsage) -> Option<OsReadings> {
    let fields = space_fields(stat);
    if fields.len() <= STAT_RESIDENT_PAGES {
        None
    } else {
        let pages = field_number(fields[STAT_RESIDENT_PAGES as int]);
        if pages * PAGE_BYTES > u64::MAX || usage.maxrss * 1024 > u64::MAX {
            None
        } else {
            Some(
                OsReadings {
                    virtual_size: field_number(fields[STAT_VIRTUAL_SIZE as int]),
                    resident_size: (pages * PAGE_BYTES) as u64,
                    resident_size_max: (usage.maxrss * 1024) as u64,
                    user_time: cpu_time(usage.utime_sec, usage.utime_usec),
                    system_time: cpu_time(usage.stime_sec, usage.stime_usec),
                    minor_fault: usage.minflt,
                    major_fault: usage.majflt,
                },
            )
        }
    }
}

/// The readings of macOS: the sizes of the task, and the CPU times and
/// fault counters of the resource usage.
pub open spec fn macos_readings(info: TaskInfo, usage: RUsage) -> OsReadings {
    OsReadings {
        virtual_size: info.virtual_size,
        resident_size: info.resident_size,
        resident_size_max: info.resident_size_max,
        user_time: cpu_time(usage.utime_sec, usage.utime_usec),
        system_time: cpu_time(usage.stime_sec, usage.stime_usec),
        minor_fault: usage.minflt,
        major_fault: usage.majflt,
    }
}

/// The span that a Windows time counts.
pub open spec fn file_time_span(time: FileTime) -> Duration {
    Duration { nanos: ((time.high * 0x1_0000_0000 + time.low) * 100) as u128 }
}

/// The readings of Windows: the working set and its high-water mark, the
/// process times, and the page faults as minor faults. Windows reports no
/// virtual size and no major faults, which stay at zero.
pub open spec fn windows_readings(
    kernel_time: FileTime,
    user_time: FileTime,
    memory: MemoryCounters,
) -> OsReadings {
    OsReadings {
        virtual_size: 0,
        resident_size: memory.working_set_size,
        resident_size_max: memory.peak_working_set_size,
        user_time: file_time_span(user_time),
        system_time: file_time_span(kernel_time),
        minor_fault: memory.page_fault_count,
        major_fault: 0,
    }
}

/// The readings in `raw`, in the common shape. Linux fails where its status
/// line could not be read or gives no readings; a platform without a source
/// gives the zeroed snapshot.
pub open spec fn os_readings(raw: RawReadings) -> Result<OsReadings, ReadingsError> {
    match raw {
        RawReadings::Linux { stat: None, usage } => Err(ReadingsError::ProcStat),
        RawReadings::Linux { stat: Some(stat), usage } => match linux_readings(stat@, usage) {
            Some(readings) => Ok(readings),
            None => Err(ReadingsError::ProcStat),
        },
        RawReadings::MacOs { info, usage } => Ok(macos_readings(info, usage)),
        RawReadings::Windows { kernel_time, user_time, memory } => Ok(
            windows_readings(kernel_time, user_time, memory),
        ),
        RawReadings::Unsupported => Ok(OsReadings::spec_zeroed()),
    }
}

/// The CPU time of `secs` seconds and `usecs` microseconds.
pub fn cpu_time_of(secs: u64, usecs: u64) -> (d: Duration)
    ensures
        d == cpu_time(secs, usecs),
{
    let wide_secs: u128 = secs as u128;
    let wide_usecs: u128 = usecs as u128;
    Duration { nanos: wide_secs * 1_000_000_000 + wide_usecs * 1_000 }
}

/// The number in a field of the status line, zero where it holds none.
pub fn field_number_of(field: &str) -> (value: u64)
    ensures
        value == field_number(field@),
{
    match parse_u64(field) {
        Some(value) => value,
        None => 0,
    }
}

/// The readings of Linux from the process-status line and the resource
/// usage.
pub fn linux_os_readings(stat: &str, usage: &RUsage) -> (r: Option<OsReadings>)
    ensures
        r == linux_readings(stat@, *usage),
{
    let fields = split_spaces(stat);
    if fields.len() <= STAT_RESIDENT_PAGES {
        return None;
    }
    assert(fields@[STAT_VIRTUAL_SIZE as int]@ == space_fields(stat@)[STAT_VIRTUAL_SIZE as int]);
    assert(fields@[STAT_RESIDENT_PAGES as int]@ == space_fields(
        stat@,
    )[STAT_RESIDENT_PAGES as int]);
    let virtual_size = field_number_of(fields[STAT_VIRTUAL_SIZE].as_str());
    let pages = field_number_of(fields[STAT_RESIDENT_PAGES].as_str());
    if pages > u64::MAX / PAGE_BYTES || usage.maxrss > u64::MAX / 1024 {
        return None;
    }
    Some(
        OsReadings {
            virtual_size,
            resident_size: pages * PAGE_BYTES,
            resident_size_max: usage.maxrss * 1024,
            user_time: cpu_time_of(usage.utime_sec, usage.utime_usec),
            system_time: cpu_time_of(usage.stime_sec, usage.stime_usec),
            minor_fault: usage.minflt,
            major_fault: usage.majflt,
        },
    )
}

/// The readings of macOS from the task's sizes and the resource usage.
pub fn macos_os_readings(info: &TaskInfo, usage: &RUsage) -> (r: OsReadings)
    ensures
        r == macos_readings(*info, *usage),
{
    OsReadings {
        virtual_size: info.virtual_size,
        resident_size: info.resident_size,
        resident_size_max: info.resident_size_max,
        user_time: cpu_time_of(usage.utime_sec, usage.utime_usec),
        system_time: cpu_time_of(usage.stime_sec, usage.stime_usec),
        minor_fault: usage.minflt,
        major_fault: usage.majflt,
    }
}

/// The span that a Windows time counts.
pub fn file_time_span_of(time: &FileTime) -> (d: Duration)
    ensures
        d == file_time_span(*time),
{
    let high: u128 = time.high as u128;
    let low: u128 = time.low as u128;
    Duration { nanos: (high * 0x1_0000_0000 + low) * 100 }
}

/// The readings of Windows from the process times and the memory counters.
pub fn windows_os_readings(
    kernel_time: &FileTime,
    user_time: &FileTime,
    memory: &MemoryCounters,
) -> (r: OsReadings)
    ensures
        r == windows_readings(*kernel_time, *user_time, *memory),
{
    OsReadings {
        virtual_size: 0,
        resident_size: memory.working_set_size,
        resident_size_max: memory.peak_working_set_size,
        user_time: file_time_span_of(user_time),
        system_time: file_time_span_of(kernel_time),
        minor_fault: memory.page_fault_count,
        major_fault: 0,
    }
}

/// Returns metrics from the operating system interface, from what the
/// platform handed over.
///
/// Beware, not all operating systems are made equal.
pub fn get_os_readings(raw: &RawReadings) -> (r: Result<OsReadings, ReadingsError>)
    ensures
        r == os_readings(*raw),
{
    match raw {
        RawReadings::Linux { stat, usage } => match stat {
            Some(stat) => match linux_os_readings(stat.as_str(), usage) {
                Some(readings) => Ok(readings),
                None => Err(ReadingsError::ProcStat),
            },
            None => Err(ReadingsError::ProcStat),
        },
        RawReadings::MacOs { info, usage } => Ok(macos_os_readings(info, usage)),
        RawReadings::Windows { kernel_time, user_time, memory } => Ok(
            windows_os_readings(kernel_time, user_time, memory),
        ),
        RawReadings::Unsupported => Ok(OsReadings::zeroed()),
    }
}

} // verus!
