//! Audio capture: the capture interface, its configuration, and the
//! platform-independent capture backends; the PulseAudio-backed capture
//! lives with the platform plumbing outside this crate.

use vstd::prelude::*;

use crate::protocol::AudioFormat;

verus! {

/// The audio capture interface every capture backend implements.
pub trait AudioCapture {
    /// Initialize capture for a sample rate, channel count and format.
    fn init(&mut self, sample_rate: u32, channels: u8, format: AudioFormat) -> Result<
        (),
        crate::device::TransferError,
    >;

    /// Start capturing.
    fn start(&mut self) -> Result<(), crate::device::TransferError>;

    /// Stop capturing.
    fn stop(&mut self) -> Result<(), crate::device::TransferError>;

    /// Read captured samples into a buffer, returning the bytes written.
    fn read_samples(&mut self, buffer: &mut Vec<u8>) -> Result<
        usize,
        crate::device::TransferError,
    >;

    /// Whether capture is running.
    fn is_capturing(&self) -> bool;
}

/// Audio capture configuration.
#[derive(Debug, Clone, PartialEq, Eq, Structural)]
pub struct AudioConfig {
    /// Sample rate in Hz
    pub sample_rate: u32,
    /// Number of channels
    pub channels: u8,
    /// Sample format
    pub format: AudioFormat,
    /// Capture buffer duration in milliseconds
    pub buffer_duration_ms: u32,
}

impl Default for AudioConfig {
    /// The default configuration is 16-bit stereo PCM at 48kHz with 20ms
    /// buffers.
    fn default() -> (r: Self)
        ensures
            r == (AudioConfig {
                sample_rate: 48000,
                channels: 2,
                format: AudioFormat::PcmS16Le,
                buffer_duration_ms: 20,
            }),
    {
        AudioConfig {
            sample_rate: 48000,
            channels: 2,
            format: AudioFormat::PcmS16Le,
            buffer_duration_ms: 20,
        }
    }
}

/// The bytes one sample of a format occupies.
pub open spec fn bytes_per_sample(f: AudioFormat) -> int {
    match f {
        AudioFormat::PcmS16Le => 2,
        AudioFormat::PcmS24Le => 3,
        AudioFormat::PcmS32Le => 4,
        AudioFormat::FloatLe => 4,
    }
}

/// WASAPI-style capture shell: carries the configuration and running
/// flag; the platform capture itself sits outside this crate.
pub struct WasapiCapture {
    /// Configuration
    config: AudioConfig,
    /// Whether capture is running
    active: bool,
}

impl WasapiCapture {
    /// The configuration.
    pub closed spec fn spec_config(&self) -> AudioConfig {
        self.config
    }

    /// Whether capture is running.
    pub closed spec fn spec_active(&self) -> bool {
        self.active
    }

    /// Create an inactive capture with the default configuration.
    pub fn new() -> (r: Result<Self, crate::device::TransferError>)
        ensures
            r is Ok,
            r is Ok ==> !r->Ok_0.spec_active() && r->Ok_0.spec_config() == (AudioConfig {
                sample_rate: 48000,
                channels: 2,
                format: AudioFormat::PcmS16Le,
                buffer_duration_ms: 20,
            }),
    {
        Ok(Self { config: AudioConfig::default(), active: false })
    }
}

impl AudioCapture for WasapiCapture {
    /// Record the requested rate, channels and format.
    fn init(&mut self, sample_rate: u32, channels: u8, format: AudioFormat) -> (r: Result<
        (),
        crate::device::TransferError,
    >)
        ensures
            r is Ok,
            final(self).spec_config() == (AudioConfig {
                sample_rate,
                channels,
                format,
                ..old(self).spec_config()
            }),
            final(self).spec_active() == old(self).spec_active(),
    {
        self.config.sample_rate = sample_rate;
        self.config.channels = channels;
        self.config.format = format;
        Ok(())
    }

    /// Mark capture running.
    fn start(&mut self) -> (r: Result<(), crate::device::TransferError>)
        ensures
            r is Ok,
            final(self).spec_active(),
            final(self).spec_config() == old(self).spec_config(),
    {
        self.active = true;
        Ok(())
    }

    /// Mark capture stopped.
    fn stop(&mut self) -> (r: Result<(), crate::device::TransferError>)
        ensures
            r is Ok,
            !final(self).spec_active(),
            final(self).spec_config() == old(self).spec_config(),
    {
        self.active = false;
        Ok(())
    }

    /// The shell reads no samples.
    fn read_samples(&mut self, _buffer: &mut Vec<u8>) -> (r: Result<
        usize,
        crate::device::TransferError,
    >)
        ensures
            r == Ok::<usize, crate::device::TransferError>(0usize),
            *final(self) == *old(self),
    {
        Ok(0)
    }

    /// Whether capture is running.
    fn is_capturing(&self) -> (r: bool)
        ensures
            r == self.spec_active(),
    {
        self.active
    }
}

/// Stub audio capture: produces silence, for platforms with no capture
/// backend.
pub struct StubAudioCapture {
    /// Configuration
    config: AudioConfig,
    /// Whether capture is running
    active: bool,
    /// Total frames handed out
    sample_count: u64,
}

impl StubAudioCapture {
    /// The configuration.
    pub closed spec fn spec_config(&self) -> AudioConfig {
        self.config
    }

    /// Whether capture is running.
    pub closed spec fn spec_active(&self) -> bool {
        self.active
    }

    /// The total frames handed out.
    pub closed spec fn spec_sample_count(&self) -> u64 {
        self.sample_count
    }

    /// Create an inactive stub capture with the default configuration.
    pub fn new() -> (r: Result<Self, crate::device::TransferError>)
        ensures
            r is Ok,
            r is Ok ==> !r->Ok_0.spec_active() && r->Ok_0.spec_sample_count() == 0
                && r->Ok_0.spec_config() == (AudioConfig {
                sample_rate: 48000,
                channels: 2,
                format: AudioFormat::PcmS16Le,
                buffer_duration_ms: 20,
            }),
    {
        Ok(Self { config: AudioConfig::default(), active: false, sample_count: 0 })
    }
}

impl AudioCapture for StubAudioCapture {
    /// Record the requested rate, channels and format.
    fn init(&mut self, sample_rate: u32, channels: u8, format: AudioFormat) -> (r: Result<
        (),
        crate::device::TransferError,
    >)
        ensures
            r is Ok,
            final(self).spec_config() == (AudioConfig {
                sample_rate,
                channels,
                format,
                ..old(self).spec_config()
            }),
            final(self).spec_active() == old(self).spec_active(),
            final(self).spec_sample_count() == old(self).spec_sample_count(),
    {
        self.config.sample_rate = sample_rate;
        self.config.channels = channels;
        self.config.format = format;
        Ok(())
    }

    /// Mark capture running.
    fn start(&mut self) -> (r: Result<(), crate::device::TransferError>)
        ensures
            r is Ok,
            final(self).spec_active(),
            final(self).spec_config() == old(self).spec_config(),
            final(self).spec_sample_count() == old(self).spec_sample_count(),
    {
        self.active = true;
        Ok(())
    }

    /// Mark capture stopped.
    fn stop(&mut self) -> (r: Result<(), crate::device::TransferError>)
        ensures
            r is Ok,
            !final(self).spec_active(),
            final(self).spec_config() == old(self).spec_config(),
            final(self).spec_sample_count() == old(self).spec_sample_count(),
    {
        self.active = false;
        Ok(())
    }

    /// Fill the buffer with silence: refused while stopped; otherwise
    /// every whole frame in the buffer is zeroed, and the byte count of
    /// those frames is returned.
    fn read_samples(&mut self, buffer: &mut Vec<u8>) -> (r: Result<
        usize,
        crate::device::TransferError,
    >)
        ensures
            !old(self).spec_active() ==> r == Err::<usize, crate::device::TransferError>(
                crate::device::TransferError::WouldBlock,
            ) && final(buffer)@ == old(buffer)@,
            old(self).spec_active() ==> r is Ok && {
                let frame_size = bytes_per_sample(old(self).spec_config().format) * old(
                    self,
                ).spec_config().channels;
                &&& final(buffer)@.len() == old(buffer)@.len()
                &&& (forall|i: int| 0 <= i < final(buffer)@.len() ==> final(buffer)@[i] == 0u8)
                &&& (frame_size > 0 ==> r->Ok_0 == (old(buffer)@.len() as int / frame_size)
                    * frame_size)
                &&& (frame_size == 0 ==> r->Ok_0 == 0)
            },
            final(self).spec_config() == old(self).spec_config(),
            final(self).spec_active() == old(self).spec_active(),
    {
        if !self.active {
            return Err(crate::device::TransferError::WouldBlock);
        }

        // Generate silence
        let bps: usize = match self.config.format {
            AudioFormat::PcmS16Le => 2,
            AudioFormat::PcmS24Le => 3,
            AudioFormat::PcmS32Le => 4,
            AudioFormat::FloatLe => 4,
        };
        let frame_size: usize = bps * (self.config.channels as usize);
        let n = buffer.len();
        let mut i: usize = 0;
        while i < n
            invariant
                i <= n,
                n == buffer@.len(),
                forall|j: int| 0 <= j < i ==> buffer@[j] == 0u8,
            decreases n - i,
        {
            buffer.set(i, 0);
            i = i + 1;
        }
        if frame_size == 0 {
            return Ok(0);
        }
        let frames = n / frame_size;
        if self.sample_count <= u64::MAX - frames as u64 {
            self.sample_count = self.sample_count + frames as u64;
        }
        proof {
            assert((n as int / frame_size as int) * frame_size as int <= n as int)
                by (nonlinear_arith)
                requires
                    frame_size > 0,
                    n >= 0,
            ;
        }
        Ok(frames * frame_size)
    }

    /// Whether capture is running.
    fn is_capturing(&self) -> (r: bool)
        ensures
            r == self.spec_active(),
    {
        self.active
    }
}

} // verus!
