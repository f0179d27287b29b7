//! What a communicator reads of the tensors it works on.
use vstd::prelude::*;

verus! {

/// The element type of a tensor: its NCCL type code and its size in bytes.
#[derive(Clone, Copy, Debug, PartialEq, Eq, Structural)]
pub struct BaguaTensorDtype {
    /// The value of `ncclDataType_t` for this element type.
    pub nccl_datatype: i32,
    /// The size of one element in bytes.
    pub element_bytes: usize,
}

impl BaguaTensorDtype {
    /// The value of `ncclDataType_t` for this element type.
    pub fn to_nccl_datatype(&self) -> (code: i32)
        ensures
            code == self.nccl_datatype,
    {
        self.nccl_datatype
    }

    /// The size of one element in bytes.
    pub fn bytes(&self) -> (size: usize)
        ensures
            size == self.element_bytes,
    {
        self.element_bytes
    }
}

/// A contiguous block of device memory that holds tensor elements.
#[derive(Clone, Copy, Debug, PartialEq, Eq, Structural)]
pub struct BaguaTensorRaw {
    /// The device address of the first element.
    pub ptr: u64,
    /// How many elements the block has room for, padding counted.
    pub num_elem_allocated: usize,
    /// The type of the elements.
    pub dtype: BaguaTensorDtype,
}

impl BaguaTensorRaw {
    /// The size of the block in bytes.
    pub open spec fn size_in_bytes(self) -> int {
        self.num_elem_allocated * self.dtype.element_bytes
    }
}

/// A tensor as the training program registers it.
#[derive(Clone, Copy, Debug, PartialEq, Eq, Structural)]
pub struct BaguaTensor {
    /// The memory of the tensor.
    pub raw: BaguaTensorRaw,
}

/// The tensor of one communication: the memory to exchange and the CUDA
/// stream on which it is being worked on.
#[derive(Clone, Copy, Debug, PartialEq, Eq, Structural)]
pub struct BaguaCommunicationTensor {
    /// The CUDA stream that orders the work on `raw`.
    pub stream_ptr: u64,
    /// The memory to exchange.
    pub raw: BaguaTensorRaw,
}

} // verus!
