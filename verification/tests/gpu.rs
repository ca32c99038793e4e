use multirate::gpu::{
    cuda_batch_sparse_fft, cuda_sparse_fft, ensure_gpu_available, get_cuda_devices,
    get_global_memory_manager, BufferDescriptor, BufferLocation, BufferType, FFTError, FFTResult,
    GpuContext, GpuDeviceInfo, GpuMemoryManager, GpuSparseFFT, GpuStream, PlatformFlags,
    SparseFFTAlgorithm, SparseFFTConfig, SparseFFTResult, SparseKernel, SparsityEstimationMethod,
    WindowFunction,
};

const STREAMS: &str = "GPU streams need to be implemented with scirs2-core::gpu abstractions";
const MEMORY: &str =
    "GPU memory management needs to be implemented with scirs2-core::gpu abstractions";

fn not_implemented<T>(r: Result<T, FFTError>, text: &str) -> bool {
    matches!(r, Err(FFTError::NotImplementedError(m)) if m == text)
}

#[test]
fn a_stream_cannot_be_opened_yet() {
    for device in [-1, 0, 1, i32::MAX] {
        assert!(not_implemented(GpuStream::new(device), STREAMS));
    }
}

#[test]
fn the_memory_manager_hands_out_nothing_yet() {
    let manager = GpuMemoryManager;
    assert!(not_implemented(
        manager.allocate(1024, BufferLocation::Device, BufferType::Input),
        MEMORY
    ));
    assert!(not_implemented(manager.allocate(0, BufferLocation::Host, BufferType::Output), MEMORY));
    assert!(not_implemented(manager.allocate(8, BufferLocation::Host, BufferType::Work), MEMORY));
    assert!(not_implemented(manager.free(BufferDescriptor::new(1024, 7)), MEMORY));
}

#[test]
fn there_is_no_global_memory_manager_yet() {
    assert!(not_implemented(get_global_memory_manager(), MEMORY));
}

#[test]
fn a_context_cannot_be_set_up_yet() {
    for device in [-1, 0, 3] {
        assert!(not_implemented(GpuContext::new(device), STREAMS));
    }
}

#[test]
fn a_descriptor_keeps_its_size_and_identity() {
    let descriptor = BufferDescriptor::new(4096, 42);
    assert_eq!(descriptor.size(), 4096);
    assert_eq!(descriptor.id(), 42);
}

#[test]
fn a_gpu_is_available_where_any_backend_is() {
    for cuda in [false, true] {
        for gpu in [false, true] {
            let caps = PlatformFlags { cuda_available: cuda, gpu_available: gpu };
            assert!(matches!(ensure_gpu_available(caps), Ok(b) if b == (cuda || gpu)));
        }
    }
}

#[test]
fn device_info_is_initialized() {
    let info = GpuDeviceInfo::new(3).ok().unwrap();
    assert_eq!(info.device_id, 3);
    assert!(info.initialized);
    assert!(info.is_available());
    let off = GpuDeviceInfo { device_id: 3, initialized: false };
    assert!(!off.is_available());
}

#[test]
fn there_are_no_devices_without_a_gpu() {
    let caps = PlatformFlags { cuda_available: false, gpu_available: false };
    assert!(get_cuda_devices(caps).ok().unwrap().is_empty());
}

#[test]
fn there_is_the_first_device_with_a_gpu() {
    for caps in [
        PlatformFlags { cuda_available: true, gpu_available: false },
        PlatformFlags { cuda_available: false, gpu_available: true },
        PlatformFlags { cuda_available: true, gpu_available: true },
    ] {
        let devices = get_cuda_devices(caps).ok().unwrap();
        assert_eq!(devices.len(), 1);
        assert_eq!(devices[0].device_id, 0);
        assert!(devices[0].is_available());
    }
}

/// A kernel that must never be asked: every request fails before it.
struct Untouched;

impl SparseKernel<f64, (f64, f64)> for Untouched {
    fn to_complex(&self, _signal: &[f64]) -> FFTResult<Vec<(f64, f64)>> {
        panic!("the kernel was asked for complex numbers")
    }

    fn run(
        &self,
        _signal: &[(f64, f64)],
        _config: &SparseFFTConfig,
    ) -> FFTResult<SparseFFTResult<(f64, f64)>> {
        panic!("the kernel was asked for a transform")
    }
}

const NO_GPU: &str = "GPU is not available. Either GPU features are not enabled or GPU hardware/drivers are not available.";

#[test]
fn a_processor_cannot_be_set_up_yet() {
    let config = SparseFFTConfig {
        estimation_method: SparsityEstimationMethod::Manual,
        sparsity: 6,
        algorithm: SparseFFTAlgorithm::Sublinear,
        window_function: WindowFunction::Hann,
    };
    for device in [-1, 0, 2] {
        assert!(not_implemented(GpuSparseFFT::new(device, config), STREAMS));
    }
}

#[test]
fn a_transform_without_a_gpu_is_a_computation_error() {
    let caps = PlatformFlags { cuda_available: false, gpu_available: false };
    let signal = vec![0.0, 1.0, 0.0, -1.0];
    let r = cuda_sparse_fft(caps, &signal, 2, 0, Some(SparseFFTAlgorithm::Sublinear), None, &Untouched);
    assert!(matches!(r, Err(FFTError::ComputationError(m)) if m == NO_GPU));
}

#[test]
fn a_transform_with_a_gpu_is_not_implemented_yet() {
    let signal = vec![0.0, 1.0, 0.0, -1.0];
    for caps in [
        PlatformFlags { cuda_available: true, gpu_available: false },
        PlatformFlags { cuda_available: false, gpu_available: true },
    ] {
        let r = cuda_sparse_fft(
            caps,
            &signal,
            6,
            0,
            Some(SparseFFTAlgorithm::Sublinear),
            Some(WindowFunction::Hann),
            &Untouched,
        );
        assert!(not_implemented(r, STREAMS));
        let r = cuda_sparse_fft(caps, &signal, 6, 0, None, None, &Untouched);
        assert!(not_implemented(r, STREAMS));
    }
}

#[test]
fn a_batch_of_transforms_is_not_implemented_yet() {
    let signals = vec![vec![0.0, 1.0], vec![1.0, 0.0], vec![]];
    let r = cuda_batch_sparse_fft(&signals, 4, 0, Some(SparseFFTAlgorithm::Sublinear), None, &Untouched);
    assert!(not_implemented(r, STREAMS));
    let none: Vec<Vec<f64>> = Vec::new();
    let r = cuda_batch_sparse_fft(&none, 4, 0, None, None, &Untouched);
    assert!(not_implemented(r, STREAMS));
}
