use vstd::prelude::*;
use crate::image::ProgramImage;
use crate::machine::{MachineState, NUM_REGS};
use crate::trace::HASH_LEN;

verus! {

/// Format version written into every checkpoint.
pub const CHECKPOINT_VERSION: u32 = 1;

/// A snapshot taken between two steps: the machine state, the whole image
/// and the chain hash so far, tagged with the step and the format version.
pub struct CheckpointState {
    pub version: u32,
    pub step: u64,
    pub state: MachineState,
    pub image: ProgramImage,
    pub hash: Vec<u8>,
}

/// Why a checkpoint cannot be resumed.
#[derive(Clone, Copy, Debug, PartialEq, Eq, Structural)]
pub enum CheckpointError {
    /// Written by another format version.
    Version(u32),
    /// The register file does not hold 32 registers.
    BadRegisters,
    /// The step tag differs from the state's step counter.
    StepMismatch,
    /// The image runs past the top of the address space.
    BadImage,
    /// The chain hash is not 20 bytes long.
    BadHash,
}

/// The error `load` reports for a checkpoint, if any: the first failing
/// check in the order version, registers, step, image, hash.
pub open spec fn checkpoint_error(cp: CheckpointState) -> Option<CheckpointError> {
    if cp.version != CHECKPOINT_VERSION {
        Some(CheckpointError::Version(cp.version))
    } else if !cp.state@.wf() {
        Some(CheckpointError::BadRegisters)
    } else if cp.step != cp.state@.step {
        Some(CheckpointError::StepMismatch)
    } else if !cp.image.wf() {
        Some(CheckpointError::BadImage)
    } else if cp.hash@.len() != HASH_LEN {
        Some(CheckpointError::BadHash)
    } else {
        None
    }
}

/// Takes a checkpoint at `step`.
pub fn save(step: u64, state: &MachineState, image: &ProgramImage, hash: &Vec<u8>) -> (r: CheckpointState)
    ensures
        r.version == CHECKPOINT_VERSION,
        r.step == step,
        r.state@ == state@,
        r.image@ == image@,
        r.hash@ == hash@,
{
    CheckpointState {
        version: CHECKPOINT_VERSION,
        step,
        state: state.copy(),
        image: image.copy(),
        hash: hash.clone(),
    }
}

/// Restores the state, image and chain hash of a checkpoint, after checking
/// its version and shape.
pub fn load(cp: CheckpointState) -> (r: Result<(MachineState, ProgramImage, Vec<u8>), CheckpointError>)
    ensures
        match checkpoint_error(cp) {
            Some(e) => r == Err::<(MachineState, ProgramImage, Vec<u8>), CheckpointError>(e),
            None => r matches Ok((s, m, h)) && s@ == cp.state@ && m@ == cp.image@ && h@ == cp.hash@
                && m.wf(),
        },
{
    if cp.version != CHECKPOINT_VERSION {
        return Err(CheckpointError::Version(cp.version));
    }
    if cp.state.registers.len() != NUM_REGS {
        return Err(CheckpointError::BadRegisters);
    }
    if cp.step != cp.state.step {
        return Err(CheckpointError::StepMismatch);
    }
    if !cp.image.check_wf() {
        return Err(CheckpointError::BadImage);
    }
    if cp.hash.len() != HASH_LEN {
        return Err(CheckpointError::BadHash);
    }
    Ok((cp.state, cp.image, cp.hash))
}

} // verus!
