use vstd::prelude::*;

verus! {

/// The fixed width of the spectrum texture, in samples.
pub const FFT_SIZE: usize = 2048;

/// Why a spectrum was not uploaded.
#[derive(Clone, Copy, Debug, PartialEq, Eq, Structural)]
pub enum FftError {
    /// The buffer does not hold exactly one sample per texel.
    LengthMismatch { expected: usize, got: usize },
}

/// One command recorded into the upload command buffer.
#[derive(Clone, Copy, Debug, PartialEq, Eq, Structural)]
pub enum UploadCommand {
    /// Move the texture from the general layout to the transfer-destination one.
    ToTransferDst,
    /// Copy `width` texels from the staging buffer into the texture.
    CopyBufferToImage { width: u32 },
    /// Move the texture back to the general layout for the shaders.
    ToGeneral,
}

/// The commands of one upload.
pub open spec fn upload_commands_of() -> Seq<UploadCommand> {
    seq![
        UploadCommand::ToTransferDst,
        UploadCommand::CopyBufferToImage { width: FFT_SIZE as u32 },
        UploadCommand::ToGeneral,
    ]
}

/// What the device side of one upload does.
#[derive(Debug)]
pub struct FftUpload {
    /// Wait on the upload fence first: an earlier upload may still be running.
    pub wait_for_previous: bool,
    pub commands: Vec<UploadCommand>,
}

/// The host side of the streamed spectrum texture: the mapped staging buffer
/// (samples as IEEE-754 single-precision bit patterns) and whether an upload
/// may still be in flight.
pub struct FftTexture {
    staging: Vec<u32>,
    pending: bool,
}

impl FftTexture {
    /// The samples that the texture holds once the last upload completes.
    pub closed spec fn contents(&self) -> Seq<u32> {
        self.staging@
    }

    /// Whether an upload may still be in flight.
    pub closed spec fn in_flight(&self) -> bool {
        self.pending
    }

    /// The staging buffer holds one sample per texel.
    pub closed spec fn wf(&self) -> bool {
        self.staging@.len() == FFT_SIZE
    }

    /// A stream whose texture holds silence, with nothing in flight.
    pub fn new() -> (r: FftTexture)
        ensures
            r.wf(),
            r.contents() == Seq::new(FFT_SIZE as nat, |i: int| 0u32),
            !r.in_flight(),
    {
        let mut staging: Vec<u32> = Vec::new();
        let mut i: usize = 0;
        while i < FFT_SIZE
            invariant
                0 <= i <= FFT_SIZE,
                staging@ == Seq::new(i as nat, |k: int| 0u32),
            decreases FFT_SIZE - i,
        {
            staging.push(0);
            i = i + 1;
            assert(staging@ =~= Seq::new(i as nat, |k: int| 0u32));
        }
        FftTexture { staging, pending: false }
    }

    /// Stages a spectrum for upload. A buffer of the texture's width is copied
    /// into the staging buffer after any upload in flight has finished; any
    /// other length is rejected and changes nothing.
    pub fn update(&mut self, samples: &[u32]) -> (r: Result<FftUpload, FftError>)
        requires
            old(self).wf(),
        ensures
            final(self).wf(),
            samples@.len() != FFT_SIZE <==> r is Err,
            match r {
                Ok(upload) => {
                    &&& upload.wait_for_previous == old(self).in_flight()
                    &&& upload.commands@ == upload_commands_of()
                    &&& final(self).contents() == samples@
                    &&& final(self).in_flight()
                },
                Err(e) => {
                    &&& e == FftError::LengthMismatch { expected: FFT_SIZE, got: samples@.len() as usize }
                    &&& final(self).contents() == old(self).contents()
                    &&& final(self).in_flight() == old(self).in_flight()
                },
            },
    {
        if samples.len() != FFT_SIZE {
            return Err(FftError::LengthMismatch { expected: FFT_SIZE, got: samples.len() });
        }
        let wait_for_previous = self.pending;
        let mut i: usize = 0;
        while i < FFT_SIZE
            invariant
                0 <= i <= FFT_SIZE,
                samples@.len() == FFT_SIZE,
                self.staging@.len() == FFT_SIZE,
                forall|k: int| 0 <= k < i ==> self.staging@[k] == samples@[k],
            decreases FFT_SIZE - i,
        {
            self.staging.set(i, samples[i]);
            i = i + 1;
        }
        assert(self.staging@ =~= samples@);
        self.pending = true;
        let commands = vec![
            UploadCommand::ToTransferDst,
            UploadCommand::CopyBufferToImage { width: FFT_SIZE as u32 },
            UploadCommand::ToGeneral,
        ];
        assert(commands@ =~= upload_commands_of());
        Ok(FftUpload { wait_for_previous, commands })
    }
}

} // verus!
