//! The kinds of faults that can be injected.

use vstd::prelude::*;

use crate::errno;
use crate::text;

verus! {

/// Types of faults that can be injected.
#[derive(Debug, Clone, Copy, PartialEq, Eq, Hash, Structural)]
pub enum FaultType {
    /// Disk write failure (EIO on write/pwrite/writev)
    DiskWrite,
    /// Disk read failure (EIO on read/pread/readv)
    DiskRead,
    /// Disk fsync failure (EIO on fsync/fdatasync)
    DiskFsync,
    /// Network connect refused (ECONNREFUSED)
    NetworkConnectRefused,
    /// Network connect timeout (ETIMEDOUT)
    NetworkConnectTimeout,
    /// Network bind failure (EADDRINUSE)
    NetworkBindFailed,
    /// Network listen failure (EADDRINUSE)
    NetworkListenFailed,
    /// Network accept failure (ECONNABORTED)
    NetworkAcceptFailed,
    /// Network send failure (EPIPE)
    NetworkSendFailed,
    /// Network recv failure (ECONNRESET)
    NetworkRecvFailed,
    /// Memory allocation failure (ENOMEM)
    MemoryAlloc,
    /// Process fork failure (EAGAIN)
    ForkFailed,
}

/// All fault types, in declaration order.
pub open spec fn all_fault_types() -> Seq<FaultType> {
    seq![
        FaultType::DiskWrite,
        FaultType::DiskRead,
        FaultType::DiskFsync,
        FaultType::NetworkConnectRefused,
        FaultType::NetworkConnectTimeout,
        FaultType::NetworkBindFailed,
        FaultType::NetworkListenFailed,
        FaultType::NetworkAcceptFailed,
        FaultType::NetworkSendFailed,
        FaultType::NetworkRecvFailed,
        FaultType::MemoryAlloc,
        FaultType::ForkFailed,
    ]
}

/// The position of a fault type in declaration order.
pub open spec fn fault_code(fault_type: FaultType) -> u64 {
    match fault_type {
        FaultType::DiskWrite => 0,
        FaultType::DiskRead => 1,
        FaultType::DiskFsync => 2,
        FaultType::NetworkConnectRefused => 3,
        FaultType::NetworkConnectTimeout => 4,
        FaultType::NetworkBindFailed => 5,
        FaultType::NetworkListenFailed => 6,
        FaultType::NetworkAcceptFailed => 7,
        FaultType::NetworkSendFailed => 8,
        FaultType::NetworkRecvFailed => 9,
        FaultType::MemoryAlloc => 10,
        FaultType::ForkFailed => 11,
    }
}

/// The error number that an injected fault reports by default.
pub open spec fn fault_errno(fault_type: FaultType) -> i32 {
    match fault_type {
        FaultType::DiskWrite => 5,
        FaultType::DiskRead => 5,
        FaultType::DiskFsync => 5,
        FaultType::NetworkConnectRefused => 111,
        FaultType::NetworkConnectTimeout => 110,
        FaultType::NetworkBindFailed => 98,
        FaultType::NetworkListenFailed => 98,
        FaultType::NetworkAcceptFailed => 103,
        FaultType::NetworkSendFailed => 32,
        FaultType::NetworkRecvFailed => 104,
        FaultType::MemoryAlloc => 12,
        FaultType::ForkFailed => 11,
    }
}

/// The name of a fault type.
pub open spec fn fault_name(fault_type: FaultType) -> Seq<char> {
    match fault_type {
        FaultType::DiskWrite => "disk_write"@,
        FaultType::DiskRead => "disk_read"@,
        FaultType::DiskFsync => "disk_fsync"@,
        FaultType::NetworkConnectRefused => "network_connect_refused"@,
        FaultType::NetworkConnectTimeout => "network_connect_timeout"@,
        FaultType::NetworkBindFailed => "network_bind_failed"@,
        FaultType::NetworkListenFailed => "network_listen_failed"@,
        FaultType::NetworkAcceptFailed => "network_accept_failed"@,
        FaultType::NetworkSendFailed => "network_send_failed"@,
        FaultType::NetworkRecvFailed => "network_recv_failed"@,
        FaultType::MemoryAlloc => "memory_alloc"@,
        FaultType::ForkFailed => "fork_failed"@,
    }
}

/// The fault type that a name stands for: its own name, or a short name of one
/// of the network faults.
pub open spec fn fault_named(name: Seq<char>) -> Option<FaultType> {
    if name == "disk_write"@ {
        Some(FaultType::DiskWrite)
    } else if name == "disk_read"@ {
        Some(FaultType::DiskRead)
    } else if name == "disk_fsync"@ {
        Some(FaultType::DiskFsync)
    } else if name == "network_connect_refused"@ || name == "network_connect"@ {
        Some(FaultType::NetworkConnectRefused)
    } else if name == "network_connect_timeout"@ {
        Some(FaultType::NetworkConnectTimeout)
    } else if name == "network_bind_failed"@ || name == "network_bind"@ {
        Some(FaultType::NetworkBindFailed)
    } else if name == "network_listen_failed"@ || name == "network_listen"@ {
        Some(FaultType::NetworkListenFailed)
    } else if name == "network_accept_failed"@ || name == "network_accept"@ {
        Some(FaultType::NetworkAcceptFailed)
    } else if name == "network_send_failed"@ || name == "network_send"@ {
        Some(FaultType::NetworkSendFailed)
    } else if name == "network_recv_failed"@ || name == "network_recv"@ {
        Some(FaultType::NetworkRecvFailed)
    } else if name == "memory_alloc"@ {
        Some(FaultType::MemoryAlloc)
    } else if name == "fork_failed"@ {
        Some(FaultType::ForkFailed)
    } else {
        None
    }
}

impl FaultType {
    /// Get all fault types for iteration.
    pub fn all() -> (types: &'static [FaultType])
        ensures
            types@ == all_fault_types(),
    {
        &[
            FaultType::DiskWrite,
            FaultType::DiskRead,
            FaultType::DiskFsync,
            FaultType::NetworkConnectRefused,
            FaultType::NetworkConnectTimeout,
            FaultType::NetworkBindFailed,
            FaultType::NetworkListenFailed,
            FaultType::NetworkAcceptFailed,
            FaultType::NetworkSendFailed,
            FaultType::NetworkRecvFailed,
            FaultType::MemoryAlloc,
            FaultType::ForkFailed,
        ]
    }

    /// The position of this fault type in declaration order.
    pub fn code(&self) -> (code: u64)
        ensures
            code == fault_code(*self),
            code < 12,
    {
        match self {
            FaultType::DiskWrite => 0,
            FaultType::DiskRead => 1,
            FaultType::DiskFsync => 2,
            FaultType::NetworkConnectRefused => 3,
            FaultType::NetworkConnectTimeout => 4,
            FaultType::NetworkBindFailed => 5,
            FaultType::NetworkListenFailed => 6,
            FaultType::NetworkAcceptFailed => 7,
            FaultType::NetworkSendFailed => 8,
            FaultType::NetworkRecvFailed => 9,
            FaultType::MemoryAlloc => 10,
            FaultType::ForkFailed => 11,
        }
    }

    /// Get the default errno to return for this fault type.
    pub fn default_errno(&self) -> (errno: i32)
        ensures
            errno == fault_errno(*self),
    {
        match self {
            FaultType::DiskWrite => errno::eio(),
            FaultType::DiskRead => errno::eio(),
            FaultType::DiskFsync => errno::eio(),
            FaultType::NetworkConnectRefused => errno::econnrefused(),
            FaultType::NetworkConnectTimeout => errno::etimedout(),
            FaultType::NetworkBindFailed => errno::eaddrinuse(),
            FaultType::NetworkListenFailed => errno::eaddrinuse(),
            FaultType::NetworkAcceptFailed => errno::econnaborted(),
            FaultType::NetworkSendFailed => errno::epipe(),
            FaultType::NetworkRecvFailed => errno::econnreset(),
            FaultType::MemoryAlloc => errno::enomem(),
            FaultType::ForkFailed => errno::eagain(),
        }
    }

    /// The name of this fault type.
    pub fn name(&self) -> (name: &'static str)
        ensures
            name@ == fault_name(*self),
    {
        match self {
            FaultType::DiskWrite => "disk_write",
            FaultType::DiskRead => "disk_read",
            FaultType::DiskFsync => "disk_fsync",
            FaultType::NetworkConnectRefused => "network_connect_refused",
            FaultType::NetworkConnectTimeout => "network_connect_timeout",
            FaultType::NetworkBindFailed => "network_bind_failed",
            FaultType::NetworkListenFailed => "network_listen_failed",
            FaultType::NetworkAcceptFailed => "network_accept_failed",
            FaultType::NetworkSendFailed => "network_send_failed",
            FaultType::NetworkRecvFailed => "network_recv_failed",
            FaultType::MemoryAlloc => "memory_alloc",
            FaultType::ForkFailed => "fork_failed",
        }
    }

    /// The name of this fault type, as an owned string.
    pub fn to_string(&self) -> (name: String)
        ensures
            name@ == fault_name(*self),
    {
        self.name().to_owned()
    }

    /// The fault type with the given name or short name, if there is one.
    pub fn from_name(name: &str) -> (fault_type: Option<FaultType>)
        ensures
            fault_type == fault_named(name@),
    {
        if text::same_text(name, "disk_write") {
            Some(FaultType::DiskWrite)
        } else if text::same_text(name, "disk_read") {
            Some(FaultType::DiskRead)
        } else if text::same_text(name, "disk_fsync") {
            Some(FaultType::DiskFsync)
        } else if text::same_text(name, "network_connect_refused") || text::same_text(name, "network_connect") {
            Some(FaultType::NetworkConnectRefused)
        } else if text::same_text(name, "network_connect_timeout") {
            Some(FaultType::NetworkConnectTimeout)
        } else if text::same_text(name, "network_bind_failed") || text::same_text(name, "network_bind") {
            Some(FaultType::NetworkBindFailed)
        } else if text::same_text(name, "network_listen_failed") || text::same_text(name, "network_listen") {
            Some(FaultType::NetworkListenFailed)
        } else if text::same_text(name, "network_accept_failed") || text::same_text(name, "network_accept") {
            Some(FaultType::NetworkAcceptFailed)
        } else if text::same_text(name, "network_send_failed") || text::same_text(name, "network_send") {
            Some(FaultType::NetworkSendFailed)
        } else if text::same_text(name, "network_recv_failed") || text::same_text(name, "network_recv") {
            Some(FaultType::NetworkRecvFailed)
        } else if text::same_text(name, "memory_alloc") {
            Some(FaultType::MemoryAlloc)
        } else if text::same_text(name, "fork_failed") {
            Some(FaultType::ForkFailed)
        } else {
            None
        }
    }
}

} // verus!
