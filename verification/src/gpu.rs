//! Device-side buffers for the sparse transform. No device backend is bound
//! yet: every operation that would reach a device reports that it is not
//! implemented, and the host-side size checks are already in force.

use vstd::prelude::*;
use vstd::string::StringExecFns;

verus! {

/// Error of a transform operation.
#[derive(Debug)]
pub enum FFTError {
    /// The operation could not be carried out.
    ComputationError(String),
    /// Sizes do not fit each other.
    DimensionError(String),
    /// A value is not acceptable.
    ValueError(String),
    /// The operation has no implementation yet.
    NotImplementedError(String),
    /// A buffer is missing or could not be obtained.
    MemoryError(String),
}

/// Result of a transform operation.
pub type FFTResult<T> = Result<T, FFTError>;

/// What a stream request answers while no backend is bound.
pub open spec fn stream_unavailable() -> Seq<char> {
    "GPU streams need to be implemented with scirs2-core::gpu abstractions"@
}

/// What a memory request answers while no backend is bound.
pub open spec fn memory_unavailable() -> Seq<char> {
    "GPU memory management needs to be implemented with scirs2-core::gpu abstractions"@
}

/// Whether `r` is the not-implemented failure with the message `text`.
pub open spec fn is_not_implemented<T>(r: FFTResult<T>, text: Seq<char>) -> bool {
    match r {
        Err(FFTError::NotImplementedError(m)) => m@ == text,
        _ => false,
    }
}

/// A buffer on a device: its size in bytes and its identity.
pub struct BufferDescriptor {
    size: usize,
    id: u64,
}

impl BufferDescriptor {
    /// Size of the buffer in bytes.
    pub closed spec fn spec_size(&self) -> usize {
        self.size
    }

    /// Identity of the buffer.
    pub closed spec fn spec_id(&self) -> u64 {
        self.id
    }

    /// Describes a buffer of `size` bytes known as `id`.
    pub fn new(size: usize, id: u64) -> (d: BufferDescriptor)
        ensures
            d.spec_size() == size,
            d.spec_id() == id,
    {
        BufferDescriptor { size, id }
    }

    /// Size of the buffer in bytes.
    #[verifier::when_used_as_spec(spec_size)]
    pub fn size(&self) -> (n: usize)
        ensures
            n == self.spec_size(),
    {
        self.size
    }

    /// Identity of the buffer.
    #[verifier::when_used_as_spec(spec_id)]
    pub fn id(&self) -> (n: u64)
        ensures
            n == self.spec_id(),
    {
        self.id
    }
}

/// Where a buffer lives.
pub enum BufferLocation {
    Device,
    Host,
}

/// What a buffer is used for.
pub enum BufferType {
    Input,
    Output,
    Work,
}

/// A stream of device work.
#[allow(dead_code)]
pub struct GpuStream {
    id: u64,
}

fn memory_failure() -> (e: FFTError)
    ensures
        e is NotImplementedError,
        e->NotImplementedError_0@ == memory_unavailable(),
{
    FFTError::NotImplementedError(
        String::from_str(
            "GPU memory management needs to be implemented with scirs2-core::gpu abstractions",
        ),
    )
}

impl GpuStream {
    /// Opens a stream on a device. No backend is bound, so the request always
    /// fails as not implemented.
    pub fn new(_device_id: i32) -> (r: FFTResult<GpuStream>)
        ensures
            is_not_implemented(r, stream_unavailable()),
    {
        Err(
            FFTError::NotImplementedError(
                String::from_str(
                    "GPU streams need to be implemented with scirs2-core::gpu abstractions",
                ),
            ),
        )
    }
}

/// Hands out and takes back device buffers.
pub struct GpuMemoryManager;

impl GpuMemoryManager {
    /// Requests a buffer. No backend is bound, so the request always fails as
    /// not implemented.
    pub fn allocate(&self, _size: usize, _location: BufferLocation, _buffer_type: BufferType) -> (r:
        FFTResult<BufferDescriptor>)
        ensures
            is_not_implemented(r, memory_unavailable()),
    {
        Err(memory_failure())
    }

    /// Returns a buffer. No backend is bound, so the request always fails as
    /// not implemented.
    pub fn free(&self, _descriptor: BufferDescriptor) -> (r: FFTResult<()>)
        ensures
            is_not_implemented(r, memory_unavailable()),
    {
        Err(memory_failure())
    }
}

/// The memory manager shared by all contexts. No backend is bound, so there is
/// none: the request always fails as not implemented.
pub fn get_global_memory_manager() -> (r: FFTResult<GpuMemoryManager>)
    ensures
        is_not_implemented(r, memory_unavailable()),
{
    Err(memory_failure())
}

/// What the platform reports of its accelerators.
#[derive(Clone, Copy, Debug, PartialEq, Eq, Structural)]
pub struct PlatformFlags {
    /// A CUDA device and driver are present.
    pub cuda_available: bool,
    /// Some GPU backend is present.
    pub gpu_available: bool,
}

/// Whether a GPU can be used on a platform with these capabilities: any
/// backend will do.
pub fn ensure_gpu_available(caps: PlatformFlags) -> (r: FFTResult<bool>)
    ensures
        r is Ok,
        r->Ok_0 == (caps.cuda_available || caps.gpu_available),
{
    Ok(caps.cuda_available || caps.gpu_available)
}

/// A device and whether it has been set up.
pub struct GpuDeviceInfo {
    /// Position of the device among those of the default backend.
    pub device_id: usize,
    /// Whether the device is initialized.
    pub initialized: bool,
}

impl GpuDeviceInfo {
    /// The device at position `device_id`, initialized.
    pub fn new(device_id: usize) -> (r: FFTResult<GpuDeviceInfo>)
        ensures
            r is Ok,
            r->Ok_0.device_id == device_id,
            r->Ok_0.initialized,
    {
        Ok(GpuDeviceInfo { device_id, initialized: true })
    }

    /// Whether the device can be used.
    pub fn is_available(&self) -> (b: bool)
        ensures
            b == self.initialized,
    {
        self.initialized
    }
}

/// What a refused upload answers: the `host` bytes of the data exceed the
/// `device` bytes of the buffer.
pub uninterp spec fn upload_oversize_message(host: usize, device: usize) -> Seq<char>;

/// What a refused download answers: the `device` bytes of the buffer exceed
/// the `host` bytes of the data.
pub uninterp spec fn download_oversize_message(device: usize, host: usize) -> Seq<char>;

/// `format!` on two byte counts: the text of a refused upload whose `host`
/// bytes do not fit the `device` bytes of its target. The text is a function
/// of the two counts alone.
#[verifier::external_body]
fn upload_oversize_text(host: usize, device: usize) -> (text: String)
    ensures
        text@ == upload_oversize_message(host, device),
{
    format!("Host buffer size ({} bytes) exceeds device buffer size ({} bytes)", host, device)
}

/// `format!` on two byte counts: the text of a refused download whose `device`
/// bytes do not fit the `host` bytes of its target. The text is a function of
/// the two counts alone.
#[verifier::external_body]
fn download_oversize_text(device: usize, host: usize) -> (text: String)
    ensures
        text@ == download_oversize_message(device, host),
{
    format!("Device buffer size ({} bytes) exceeds host buffer size ({} bytes)", device, host)
}

/// A device, its stream and the buffers made on it.
#[allow(dead_code)]
pub struct GpuContext {
    device_id: i32,
    device_info: GpuDeviceInfo,
    stream: GpuStream,
    initialized: bool,
}

impl GpuContext {
    /// Sets up a context on a device. The context needs a stream, and no
    /// stream can be opened yet, so the request always fails as not
    /// implemented.
    pub fn new(device_id: i32) -> (r: FFTResult<GpuContext>)
        ensures
            is_not_implemented(r, stream_unavailable()),
    {
        let device_info = GpuDeviceInfo::new(#[verifier::truncate] (device_id as usize))?;
        let stream = GpuStream::new(device_id)?;
        Ok(GpuContext { device_id, device_info, stream, initialized: true })
    }

    /// The device of this context.
    pub closed spec fn spec_device_info(&self) -> &GpuDeviceInfo {
        &self.device_info
    }

    /// The stream of this context.
    pub closed spec fn spec_stream(&self) -> &GpuStream {
        &self.stream
    }

    /// The device of this context.
    #[verifier::when_used_as_spec(spec_device_info)]
    pub fn device_info(&self) -> (d: &GpuDeviceInfo)
        ensures
            d == self.spec_device_info(),
    {
        &self.device_info
    }

    /// The stream of this context.
    #[verifier::when_used_as_spec(spec_stream)]
    pub fn stream(&self) -> (s: &GpuStream)
        ensures
            s == self.spec_stream(),
    {
        &self.stream
    }

    /// Requests `size_bytes` of device memory from the shared manager. There
    /// is none, so the request always fails as not implemented.
    pub fn allocate(&self, size_bytes: usize) -> (r: FFTResult<BufferDescriptor>)
        ensures
            is_not_implemented(r, memory_unavailable()),
    {
        let manager = get_global_memory_manager()?;
        manager.allocate(size_bytes, BufferLocation::Device, BufferType::Work)
    }

    /// Returns device memory to the shared manager. There is none, so the
    /// request always fails as not implemented.
    pub fn free(&self, descriptor: BufferDescriptor) -> (r: FFTResult<()>)
        ensures
            is_not_implemented(r, memory_unavailable()),
    {
        let manager = get_global_memory_manager()?;
        manager.free(descriptor)
    }

    /// Copies host data into a device buffer. The copy is refused with a
    /// dimension error exactly when the data take more bytes than the buffer
    /// has.
    pub fn copy_host_to_device<T>(&self, host_data: &[T], device_buffer: &BufferDescriptor) -> (r:
        FFTResult<()>)
        ensures
            r is Ok <==> vstd::layout::spec_size_of_val::<[T]>(host_data) <= device_buffer.size(),
            r is Err ==> r->Err_0 is DimensionError && r->Err_0->DimensionError_0@
                == upload_oversize_message(
                vstd::layout::spec_size_of_val::<[T]>(host_data) as usize,
                device_buffer.size(),
            ),
    {
        let host_size_bytes: usize = std::mem::size_of_val(host_data);
        let device_size_bytes: usize = device_buffer.size();
        if host_size_bytes > device_size_bytes {
            return Err(
                FFTError::DimensionError(upload_oversize_text(host_size_bytes, device_size_bytes)),
            );
        }
        Ok(())
    }

    /// Copies a device buffer into host data, which is left as it was. The
    /// copy is refused with a dimension error exactly when the buffer has more
    /// bytes than the host data can take.
    pub fn copy_device_to_host<T>(
        &self,
        device_buffer: &BufferDescriptor,
        host_data: &mut [T],
    ) -> (r: FFTResult<()>)
        ensures
            r is Ok <==> device_buffer.size() <= vstd::layout::spec_size_of_val::<[T]>(
                &*old(host_data),
            ),
            r is Err ==> r->Err_0 is DimensionError && r->Err_0->DimensionError_0@
                == download_oversize_message(
                device_buffer.size(),
                vstd::layout::spec_size_of_val::<[T]>(&*old(host_data)) as usize,
            ),
            final(host_data)@ == old(host_data)@,
    {
        let host_size_bytes: usize = std::mem::size_of_val(host_data);
        let device_size_bytes: usize = device_buffer.size();
        if device_size_bytes > host_size_bytes {
            return Err(
                FFTError::DimensionError(download_oversize_text(device_size_bytes, host_size_bytes)),
            );
        }
        Ok(())
    }
}

/// The devices that can be used on a platform with these capabilities: the
/// first device where a GPU is available, none otherwise.
pub fn get_cuda_devices(caps: PlatformFlags) -> (r: FFTResult<Vec<GpuDeviceInfo>>)
    ensures
        r is Ok,
        !(caps.cuda_available || caps.gpu_available) ==> r->Ok_0@.len() == 0,
        caps.cuda_available || caps.gpu_available ==> r->Ok_0@.len() == 1 && r->Ok_0@[0].device_id
            == 0 && r->Ok_0@[0].initialized,
{
    let available = match ensure_gpu_available(caps) {
        Ok(b) => b,
        Err(_) => false,
    };
    if !available {
        return Ok(Vec::new());
    }
    let mut devices: Vec<GpuDeviceInfo> = Vec::new();
    devices.push(GpuDeviceInfo::new(0)?);
    Ok(devices)
}

/// The variant of the sparse transform.
#[derive(Clone, Copy, Debug, PartialEq, Eq, Structural)]
pub enum SparseFFTAlgorithm {
    Sublinear,
    CompressedSensing,
    Iterative,
    Deterministic,
    FrequencyPruning,
    SpectralFlatness,
}

/// The window that is laid over a signal before it is transformed.
#[derive(Clone, Copy, Debug, PartialEq, Eq, Structural)]
pub enum WindowFunction {
    /// No window: every sample keeps its weight.
    Rectangular,
    Hann,
    Hamming,
    Blackman,
    FlatTop,
    Kaiser,
}

/// How the number of significant components is found.
#[derive(Clone, Copy, Debug, PartialEq, Eq, Structural)]
pub enum SparsityEstimationMethod {
    Manual,
    Threshold,
    Adaptive,
    FrequencyPruning,
    SpectralFlatness,
}

/// The settings of a sparse transform, as far as the device layer reads
/// them.
#[derive(Clone, Copy, Debug, PartialEq, Eq, Structural)]
pub struct SparseFFTConfig {
    pub estimation_method: SparsityEstimationMethod,
    /// The number of significant components that is expected.
    pub sparsity: usize,
    pub algorithm: SparseFFTAlgorithm,
    pub window_function: WindowFunction,
}

/// The significant components of a signal: their values, of the complex
/// number type `C`, and their places in the spectrum.
pub struct SparseFFTResult<C> {
    pub values: Vec<C>,
    pub indices: Vec<usize>,
    pub estimated_sparsity: usize,
    pub algorithm: SparseFFTAlgorithm,
}

/// The transforms themselves, which run where the numbers are: the complex
/// form of a signal of `T`, and the sparse transform of a complex signal under
/// given settings. Nothing is asked of what they return.
pub trait SparseKernel<T, C> {
    /// The signal as complex numbers, or the error of a value that has none.
    fn to_complex(&self, signal: &[T]) -> FFTResult<Vec<C>>;

    /// The sparse transform of `signal` by the algorithm of `config`.
    fn run(&self, signal: &[C], config: &SparseFFTConfig) -> FFTResult<SparseFFTResult<C>>;
}

/// `num_complex::Complex`: a complex number. Nothing is known of what it
/// holds; only its size in bytes is asked for.
#[verifier::external_type_specification]
#[verifier::external_body]
#[verifier::reject_recursive_types(T)]
pub struct ExComplex<T>(num_complex::Complex<T>);

/// What is answered where no GPU can be used.
pub open spec fn gpu_unavailable() -> Seq<char> {
    "GPU is not available. Either GPU features are not enabled or GPU hardware/drivers are not available."@
}

/// What is answered where the input buffer is missing.
pub open spec fn input_buffer_missing() -> Seq<char> {
    "Input buffer not initialized"@
}

/// The three device buffers of a processor: input, output values, output
/// places.
pub struct BufferSet {
    pub input: Option<BufferDescriptor>,
    pub output_values: Option<BufferDescriptor>,
    pub output_indices: Option<BufferDescriptor>,
}

/// A sparse transform on a device.
pub struct GpuSparseFFT {
    context: GpuContext,
    config: SparseFFTConfig,
    input_buffer: Option<BufferDescriptor>,
    output_values_buffer: Option<BufferDescriptor>,
    output_indices_buffer: Option<BufferDescriptor>,
}

impl GpuSparseFFT {
    /// The device buffers that the processor holds.
    pub closed spec fn spec_buffers(&self) -> BufferSet {
        BufferSet {
            input: self.input_buffer,
            output_values: self.output_values_buffer,
            output_indices: self.output_indices_buffer,
        }
    }

    /// The settings of the processor.
    pub closed spec fn spec_config(&self) -> SparseFFTConfig {
        self.config
    }

    /// Sets up a processor on a device. The processor needs a context, and no
    /// context can be set up yet, so the request always fails as not
    /// implemented.
    pub fn new(device_id: i32, config: SparseFFTConfig) -> (r: FFTResult<GpuSparseFFT>)
        ensures
            is_not_implemented(r, stream_unavailable()),
    {
        let context = GpuContext::new(device_id)?;
        Ok(
            GpuSparseFFT {
                context,
                config,
                input_buffer: None,
                output_values_buffer: None,
                output_indices_buffer: None,
            },
        )
    }

    /// Makes the device buffers for a signal of `signal_size` samples, after
    /// giving back those that are held. There is no memory manager to ask, so
    /// the request always fails as not implemented and the buffers stay as
    /// they are.
    pub fn initialize_buffers(&mut self, signal_size: usize) -> (r: FFTResult<()>)
        ensures
            is_not_implemented(r, memory_unavailable()),
            final(self).spec_buffers() == old(self).spec_buffers(),
            final(self).spec_config() == old(self).spec_config(),
    {
        self.free_buffers()?;
        let memory_manager = get_global_memory_manager()?;
        let sample_bytes: usize = std::mem::size_of::<num_complex::Complex64>();
        let input_buffer = memory_manager.allocate(
            signal_size * sample_bytes,
            BufferLocation::Device,
            BufferType::Input,
        )?;
        self.input_buffer = Some(input_buffer);
        let max_components = if self.config.sparsity <= signal_size {
            self.config.sparsity
        } else {
            signal_size
        };
        let output_values_buffer = memory_manager.allocate(
            max_components * sample_bytes,
            BufferLocation::Device,
            BufferType::Output,
        )?;
        self.output_values_buffer = Some(output_values_buffer);
        let output_indices_buffer = memory_manager.allocate(
            max_components * std::mem::size_of::<usize>(),
            BufferLocation::Device,
            BufferType::Output,
        )?;
        self.output_indices_buffer = Some(output_indices_buffer);
        Ok(())
    }

    /// Gives the device buffers back to the memory manager, where there is
    /// one. There is none, so the buffers stay as they are.
    pub fn free_buffers(&mut self) -> (r: FFTResult<()>)
        ensures
            r is Ok,
            final(self).spec_buffers() == old(self).spec_buffers(),
            final(self).spec_config() == old(self).spec_config(),
    {
        match get_global_memory_manager() {
            Ok(memory_manager) => {
                match self.input_buffer.take() {
                    Some(buffer) => {
                        memory_manager.free(buffer)?;
                    },
                    None => {},
                }
                match self.output_values_buffer.take() {
                    Some(buffer) => {
                        memory_manager.free(buffer)?;
                    },
                    None => {},
                }
                match self.output_indices_buffer.take() {
                    Some(buffer) => {
                        memory_manager.free(buffer)?;
                    },
                    None => {},
                }
            },
            Err(_) => {},
        }
        Ok(())
    }

    /// The sparse transform of a signal. The buffers are made first, then the
    /// signal is turned into complex numbers and checked against the input
    /// buffer, then the kernel runs. As no buffer can be made yet, the
    /// request always fails as not implemented, before the kernel is asked
    /// anything.
    pub fn sparse_fft<T, C, K: SparseKernel<T, C>>(&mut self, signal: &[T], kernel: &K) -> (r:
        FFTResult<SparseFFTResult<C>>)
        ensures
            is_not_implemented(r, memory_unavailable()),
            final(self).spec_buffers() == old(self).spec_buffers(),
    {
        self.initialize_buffers(signal.len())?;
        let signal_complex = kernel.to_complex(signal)?;
        match &self.input_buffer {
            Some(input_buffer) => {
                self.context.copy_host_to_device(signal_complex.as_slice(), input_buffer)?;
            },
            None => {
                return Err(
                    FFTError::MemoryError(String::from_str("Input buffer not initialized")),
                );
            },
        }
        kernel.run(signal_complex.as_slice(), &self.config)
    }
}

/// The sparse transform of a signal on a device, with `k` significant
/// components expected. Without a GPU the request fails as a computation
/// error. With one it fails as not implemented, as no processor can be set
/// up yet.
pub fn cuda_sparse_fft<T, C, K: SparseKernel<T, C>>(
    caps: PlatformFlags,
    signal: &[T],
    k: usize,
    device_id: i32,
    algorithm: Option<SparseFFTAlgorithm>,
    window_function: Option<WindowFunction>,
    kernel: &K,
) -> (r: FFTResult<SparseFFTResult<C>>)
    ensures
        !(caps.cuda_available || caps.gpu_available) ==> r is Err && r->Err_0 is ComputationError
            && r->Err_0->ComputationError_0@ == gpu_unavailable(),
        caps.cuda_available || caps.gpu_available ==> is_not_implemented(r, stream_unavailable()),
{
    if !ensure_gpu_available(caps)? {
        return Err(
            FFTError::ComputationError(
                String::from_str(
                    "GPU is not available. Either GPU features are not enabled or GPU hardware/drivers are not available.",
                ),
            ),
        );
    }
    let config = SparseFFTConfig {
        estimation_method: SparsityEstimationMethod::Manual,
        sparsity: k,
        algorithm: match algorithm {
            Some(a) => a,
            None => SparseFFTAlgorithm::Sublinear,
        },
        window_function: match window_function {
            Some(w) => w,
            None => WindowFunction::Rectangular,
        },
    };
    let mut processor = GpuSparseFFT::new(device_id, config)?;
    processor.sparse_fft(signal, kernel)
}

/// The sparse transforms of several signals on one device. No processor can
/// be set up yet, so the request always fails as not implemented.
pub fn cuda_batch_sparse_fft<T, C, K: SparseKernel<T, C>>(
    signals: &[Vec<T>],
    k: usize,
    device_id: i32,
    algorithm: Option<SparseFFTAlgorithm>,
    window_function: Option<WindowFunction>,
    kernel: &K,
) -> (r: FFTResult<Vec<SparseFFTResult<C>>>)
    ensures
        is_not_implemented(r, stream_unavailable()),
{
    let config = SparseFFTConfig {
        estimation_method: SparsityEstimationMethod::Manual,
        sparsity: k,
        algorithm: match algorithm {
            Some(a) => a,
            None => SparseFFTAlgorithm::Sublinear,
        },
        window_function: match window_function {
            Some(w) => w,
            None => WindowFunction::Rectangular,
        },
    };
    let made = GpuSparseFFT::new(device_id, config);
    let ghost outcome = made;
    let mut processor = made?;
    let mut results: Vec<SparseFFTResult<C>> = Vec::new();
    let mut i: usize = 0;
    while i < signals.len()
        invariant
            i <= signals@.len(),
            outcome is Ok,
            is_not_implemented(outcome, stream_unavailable()),
        decreases signals@.len() - i,
    {
        results.push(processor.sparse_fft(signals[i].as_slice(), kernel)?);
        i = i + 1;
    }
    Ok(results)
}

} // verus!
