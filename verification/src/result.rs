//! Result codes of the boundary entry points.

use vstd::prelude::*;

verus! {

/// What an entry point hands back to the host.
///
/// Each variant has a numeric code. Codes are grouped in ranges so that the
/// failures of one collaborator never collide with those of another.
#[derive(Debug, Clone, Copy, PartialEq, Eq, Structural)]
pub enum EngineResult {
    Success,
    UnknownError,
    NotInitialized,
    AlreadyInitialized,
    WrongThread,
    BufferOverflow,
    WinitEventLoopNotInitializedError,
    WinitCreateWindowError,
    WgpuInstanceError,
    CmdInvalidCborError,
}

/// First code of the range kept for the windowing collaborator.
pub const WINDOWING_CODE_BASE: u32 = 1000;

/// First code of the range kept for the GPU collaborator.
pub const GPU_CODE_BASE: u32 = 2000;

/// First code of the range kept for command processing.
pub const COMMAND_CODE_BASE: u32 = 3000;

/// Width of each collaborator's range of codes.
pub const CODE_RANGE_WIDTH: u32 = 1000;

impl EngineResult {
    /// The numeric code of a result.
    pub open spec fn code_of(self) -> u32 {
        match self {
            EngineResult::Success => 0,
            EngineResult::UnknownError => 1,
            EngineResult::NotInitialized => 2,
            EngineResult::AlreadyInitialized => 3,
            EngineResult::WrongThread => 4,
            EngineResult::BufferOverflow => 5,
            EngineResult::WinitEventLoopNotInitializedError => 1000,
            EngineResult::WinitCreateWindowError => 1001,
            EngineResult::WgpuInstanceError => 2000,
            EngineResult::CmdInvalidCborError => 3000,
        }
    }

    /// Whether a result is one of the general ones that stand before the ranges.
    pub open spec fn is_general(self) -> bool {
        self.code_of() < WINDOWING_CODE_BASE
    }

    /// Whether a result reports a failure of the windowing collaborator.
    pub open spec fn is_windowing(self) -> bool {
        self is WinitEventLoopNotInitializedError || self is WinitCreateWindowError
    }

    /// Whether a result reports a failure of the GPU collaborator.
    pub open spec fn is_gpu(self) -> bool {
        self is WgpuInstanceError
    }

    /// Whether a result reports a failure of command processing.
    pub open spec fn is_command(self) -> bool {
        self is CmdInvalidCborError
    }

    /// The numeric code that crosses the boundary.
    pub fn code(self) -> (c: u32)
        ensures
            c == self.code_of(),
    {
        match self {
            EngineResult::Success => 0,
            EngineResult::UnknownError => 1,
            EngineResult::NotInitialized => 2,
            EngineResult::AlreadyInitialized => 3,
            EngineResult::WrongThread => 4,
            EngineResult::BufferOverflow => 5,
            EngineResult::WinitEventLoopNotInitializedError => WINDOWING_CODE_BASE,
            EngineResult::WinitCreateWindowError => WINDOWING_CODE_BASE + 1,
            EngineResult::WgpuInstanceError => GPU_CODE_BASE,
            EngineResult::CmdInvalidCborError => COMMAND_CODE_BASE,
        }
    }

    /// The result that a numeric code stands for, if it stands for one.
    pub fn from_code(code: u32) -> (r: Option<EngineResult>)
        ensures
            match r {
                Some(v) => v.code_of() == code,
                None => forall|v: EngineResult| v.code_of() != code,
            },
    {
        if code == 0 {
            Some(EngineResult::Success)
        } else if code == 1 {
            Some(EngineResult::UnknownError)
        } else if code == 2 {
            Some(EngineResult::NotInitialized)
        } else if code == 3 {
            Some(EngineResult::AlreadyInitialized)
        } else if code == 4 {
            Some(EngineResult::WrongThread)
        } else if code == 5 {
            Some(EngineResult::BufferOverflow)
        } else if code == WINDOWING_CODE_BASE {
            Some(EngineResult::WinitEventLoopNotInitializedError)
        } else if code == WINDOWING_CODE_BASE + 1 {
            Some(EngineResult::WinitCreateWindowError)
        } else if code == GPU_CODE_BASE {
            Some(EngineResult::WgpuInstanceError)
        } else if code == COMMAND_CODE_BASE {
            Some(EngineResult::CmdInvalidCborError)
        } else {
            None
        }
    }
}

/// Two results with the same code are the same result.
pub proof fn law_codes_are_distinct(a: EngineResult, b: EngineResult)
    requires
        a.code_of() == b.code_of(),
    ensures
        a == b,
{
}

/// Every result lies in exactly one group, and each group keeps to its own
/// range of codes: the general results below 1000, windowing failures from
/// 1000, GPU failures from 2000, command failures from 3000, each range a
/// thousand codes wide.
pub proof fn law_codes_keep_to_their_ranges(r: EngineResult)
    ensures
        r.is_general() <==> !r.is_windowing() && !r.is_gpu() && !r.is_command(),
        r.is_general() ==> r.code_of() <= 5,
        r.is_windowing() ==> WINDOWING_CODE_BASE <= r.code_of() < WINDOWING_CODE_BASE
            + CODE_RANGE_WIDTH,
        r.is_gpu() ==> GPU_CODE_BASE <= r.code_of() < GPU_CODE_BASE + CODE_RANGE_WIDTH,
        r.is_command() ==> COMMAND_CODE_BASE <= r.code_of() < COMMAND_CODE_BASE + CODE_RANGE_WIDTH,
        r.code_of() == 0 <==> r == EngineResult::Success,
{
}

} // verus!
