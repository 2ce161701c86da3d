//! The in-process transport: the engine image is loaded into this process,
//! its entry points are found at fixed offsets from one exported symbol, and
//! its results are read out of scratch buffers it fills in. The foreign calls
//! themselves are made by the caller with the addresses computed here.
use vstd::prelude::*;
use crate::error::SessionError;
use crate::layout::{payload_region, region_ok, word_at};
use crate::resolve::{base_of, entry_address, entry_of, relocation_base};

verus! {

#[verifier::external_type_specification]
#[verifier::external_body]
pub struct ExLibrary(libloading::Library);

#[verifier::external_type_specification]
#[verifier::external_body]
pub struct ExLoadingError(libloading::Error);

/// Relies on libloading::Library::close: unloads the image and reports a
/// failed unload as an error; it does not panic.
pub assume_specification[ libloading::Library::close ](library: libloading::Library) -> Result<
    (),
    libloading::Error,
>;

// Offsets into one known x86_64 Linux build of the engine image
// (sha256 f47fbd299bf5c83449bf6485a2c00c0f059d0e059646e20c64111bc5fac84b2a).
/// Offset of the exported reference symbol.
pub const REFERENCE_ADDRESS: usize = 0x008a39b0;
/// Offset of the entry point that creates a validation context.
pub const VALIDATION_CTX_NEW_ADDRESS: usize = 0x00b897c0;
/// Offset of the key-establishment entry point.
pub const VALIDATION_CTX_KEY_ESTABLISHMENT_ADDRESS: usize = 0x00b8b3b0;
/// Offset of the signing entry point.
pub const VALIDATION_CTX_SIGN_ADDRESS: usize = 0x00b8bb50;

/// Size in bytes of each scratch buffer the engine writes into; no payload
/// longer than this is ever copied out.
pub const SCRATCH_BUFFER_SIZE: usize = 500000;
/// Word of the session-info buffer that holds the payload's address.
pub const SESSION_INFO_POINTER_WORD: usize = 1;
/// Word of the session-info buffer that holds the payload's length.
pub const SESSION_INFO_LENGTH_WORD: usize = 2;
/// Word of the signing result buffer that holds the signature's address.
pub const SIGNATURE_POINTER_WORD: usize = 2;
/// Word of the signing result buffer that holds the signature's length.
pub const SIGNATURE_LENGTH_WORD: usize = 3;

/// The state of the in-process transport: the loaded image, its base, and
/// the buffers threaded from one phase to the next.
pub struct MacValidationGenerator {
    pub library: libloading::Library,
    pub base_library_pointer: usize,
    pub validation_ctx_data_buffer: Option<Vec<u8>>,
    pub session_data_buffer: Option<Vec<u8>>,
}

impl MacValidationGenerator {
    /// A generator over a loaded image whose reference symbol was observed at
    /// `reference_symbol_address`; no phase has run yet.
    pub fn new(library: libloading::Library, reference_symbol_address: usize) -> (r: Self)
        ensures
            r.library == library,
            r.base_library_pointer == base_of(reference_symbol_address, REFERENCE_ADDRESS),
            r.validation_ctx_data_buffer is None,
            r.session_data_buffer is None,
    {
        MacValidationGenerator {
            library,
            base_library_pointer: relocation_base(reference_symbol_address, REFERENCE_ADDRESS),
            validation_ctx_data_buffer: None,
            session_data_buffer: None,
        }
    }

    /// Releases the loaded image. The generator is consumed, so its image is
    /// released at most once; a failed unload is `ImageReleaseFailed`.
    pub fn close(self) -> (r: Result<(), SessionError>)
        ensures
            r is Err ==> r->Err_0 is ImageReleaseFailed,
    {
        match self.library.close() {
            Ok(()) => Ok(()),
            Err(_) => Err(SessionError::ImageReleaseFailed),
        }
    }

    /// Runtime address of the entry point that creates a validation context.
    pub fn initialize_entry(&self) -> (r: usize)
        ensures
            r == entry_of(self.base_library_pointer, VALIDATION_CTX_NEW_ADDRESS),
    {
        entry_address(self.base_library_pointer, VALIDATION_CTX_NEW_ADDRESS)
    }

    /// Runtime address of the key-establishment entry point.
    pub fn key_establishment_entry(&self) -> (r: usize)
        ensures
            r == entry_of(self.base_library_pointer, VALIDATION_CTX_KEY_ESTABLISHMENT_ADDRESS),
    {
        entry_address(self.base_library_pointer, VALIDATION_CTX_KEY_ESTABLISHMENT_ADDRESS)
    }

    /// Runtime address of the signing entry point.
    pub fn sign_entry(&self) -> (r: usize)
        ensures
            r == entry_of(self.base_library_pointer, VALIDATION_CTX_SIGN_ADDRESS),
    {
        entry_address(self.base_library_pointer, VALIDATION_CTX_SIGN_ADDRESS)
    }

    /// Address and length of the session info that the initialization call
    /// described in `buffer`.
    pub fn session_info_region(buffer: &Vec<u8>) -> (r: Result<(u64, usize), SessionError>)
        ensures
            r is Ok <==> region_ok(
                buffer@,
                SESSION_INFO_POINTER_WORD as int,
                SESSION_INFO_LENGTH_WORD as int,
                SCRATCH_BUFFER_SIZE as int,
            ),
            r is Ok ==> r->Ok_0.0 as int == word_at(buffer@, SESSION_INFO_POINTER_WORD as int)
                && r->Ok_0.1 as int == word_at(buffer@, SESSION_INFO_LENGTH_WORD as int),
            r is Err ==> r->Err_0 is BufferDecodeOutOfBounds,
    {
        payload_region(buffer, SESSION_INFO_POINTER_WORD, SESSION_INFO_LENGTH_WORD, SCRATCH_BUFFER_SIZE)
    }

    /// Address and length of the signature that the signing call described in
    /// `buffer`.
    pub fn signature_region(buffer: &Vec<u8>) -> (r: Result<(u64, usize), SessionError>)
        ensures
            r is Ok <==> region_ok(
                buffer@,
                SIGNATURE_POINTER_WORD as int,
                SIGNATURE_LENGTH_WORD as int,
                SCRATCH_BUFFER_SIZE as int,
            ),
            r is Ok ==> r->Ok_0.0 as int == word_at(buffer@, SIGNATURE_POINTER_WORD as int)
                && r->Ok_0.1 as int == word_at(buffer@, SIGNATURE_LENGTH_WORD as int),
            r is Err ==> r->Err_0 is BufferDecodeOutOfBounds,
    {
        payload_region(buffer, SIGNATURE_POINTER_WORD, SIGNATURE_LENGTH_WORD, SCRATCH_BUFFER_SIZE)
    }

    /// Records the outcome of initialization: the context buffer the engine
    /// filled in and the session info copied out of it.
    pub fn complete_initialize(&mut self, context: Vec<u8>, session_info: Vec<u8>)
        ensures
            final(self).library == old(self).library,
            final(self).base_library_pointer == old(self).base_library_pointer,
            final(self).validation_ctx_data_buffer == Some(context),
            final(self).session_data_buffer == Some(session_info),
    {
        self.validation_ctx_data_buffer = Some(context);
        self.session_data_buffer = Some(session_info);
    }

    /// A copy of the current context buffer, to hand to the next engine call;
    /// `InvalidState` before initialization.
    pub fn context_for_call(&self) -> (r: Result<Vec<u8>, SessionError>)
        ensures
            r is Ok <==> self.validation_ctx_data_buffer is Some,
            r is Ok ==> r->Ok_0@ == self.validation_ctx_data_buffer->Some_0@,
            r is Err ==> r->Err_0 is InvalidState,
    {
        match &self.validation_ctx_data_buffer {
            Some(context) => {
                let mut copy: Vec<u8> = Vec::with_capacity(context.len());
                let mut i: usize = 0;
                while i < context.len()
                    invariant
                        i <= context@.len(),
                        copy@ == context@.subrange(0, i as int),
                    decreases context@.len() - i,
                {
                    copy.push(context[i]);
                    i = i + 1;
                    assert(copy@ =~= context@.subrange(0, i as int));
                }
                assert(copy@ =~= context@);
                Ok(copy)
            },
            None => Err(SessionError::InvalidState),
        }
    }

    /// Adopts the context buffer as the engine left it after a call.
    pub fn adopt_context(&mut self, context: Vec<u8>)
        ensures
            final(self).library == old(self).library,
            final(self).base_library_pointer == old(self).base_library_pointer,
            final(self).validation_ctx_data_buffer == Some(context),
            final(self).session_data_buffer == old(self).session_data_buffer,
    {
        self.validation_ctx_data_buffer = Some(context);
    }
}

} // verus!
