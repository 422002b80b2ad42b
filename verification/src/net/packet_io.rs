//! What a connection does to frames between the socket and the protocol
//! codec: reading the length prefix byte by byte, and encrypting or
//! decrypting frame bodies once the stream cipher is on.

use vstd::prelude::*;
use crate::net::cfb8::{cfb8_decrypt, cfb8_encrypt, AesCfb8};
use crate::net::framing::{
    check_frame_length, outgoing_prefix_len, scan_varint, scan_varint_spec, varint_prefix_len, FrameError, VarIntScan,
    MAX_FRAME_LEN,
};

verus! {

/// What reading one more length byte gives.
#[derive(Debug, Clone, Copy, PartialEq, Eq, Structural)]
pub enum LengthRead {
    /// The length continues in the next byte.
    More,
    /// The length is complete; this many body bytes follow.
    Body(usize),
    /// The prefix or the length is refused.
    Refused(FrameError),
}

/// The outcome of a length prefix read from `bytes`.
pub open spec fn length_read_spec(bytes: Seq<u8>) -> LengthRead {
    match scan_varint_spec(bytes) {
        VarIntScan::Complete { len, raw } => {
            let length = raw as i32;
            if length >= 0 && length as int <= MAX_FRAME_LEN {
                LengthRead::Body(length as usize)
            } else {
                LengthRead::Refused(FrameError::FrameTooLarge(length as usize))
            }
        },
        VarIntScan::Truncated => LengthRead::More,
        VarIntScan::TooLong => LengthRead::Refused(FrameError::VarIntTooLarge),
    }
}

/// Reads a frame's length prefix one byte at a time.
pub struct FrameLengthReader {
    seen: Vec<u8>,
}

impl FrameLengthReader {
    /// The bytes read so far.
    pub closed spec fn seen(&self) -> Seq<u8> {
        self.seen@
    }

    pub fn new() -> (r: FrameLengthReader)
        ensures
            r.seen() == Seq::<u8>::empty(),
    {
        FrameLengthReader { seen: Vec::new() }
    }

    /// Takes the next byte of the prefix.
    pub fn feed(&mut self, byte: u8) -> (r: LengthRead)
        requires
            length_read_spec(old(self).seen()) == LengthRead::More,
        ensures
            final(self).seen() == old(self).seen().push(byte),
            r == length_read_spec(final(self).seen()),
    {
        self.seen.push(byte);
        match scan_varint(self.seen.as_slice()) {
            VarIntScan::Complete { len, raw } => {
                match check_frame_length(raw as i32) {
                    Ok(n) => LengthRead::Body(n),
                    Err(e) => LengthRead::Refused(e),
                }
            },
            VarIntScan::Truncated => LengthRead::More,
            VarIntScan::TooLong => LengthRead::Refused(FrameError::VarIntTooLarge),
        }
    }
}

/// The frame transformations of one connection.
pub struct FrameCipher {
    encryption: Option<AesCfb8>,
}

impl FrameCipher {
    pub closed spec fn enabled(&self) -> bool {
        self.encryption is Some
    }

    pub closed spec fn key(&self) -> Seq<u8> {
        self.encryption->0.key()
    }

    /// The shift register of the stream cipher.
    pub closed spec fn register(&self) -> Seq<u8> {
        self.encryption->0.register()
    }

    /// A connection without encryption.
    pub fn new() -> (r: FrameCipher)
        ensures
            !r.enabled(),
    {
        FrameCipher { encryption: None }
    }

    /// Turns on AES-CFB8 with the shared secret as key and register.
    pub fn enable_encryption(&mut self, key: &[u8; 16])
        ensures
            final(self).enabled(),
            final(self).key() == key@,
            final(self).register() == key@,
    {
        self.encryption = Some(AesCfb8::new(key));
    }

    /// An incoming frame body, decrypted when encryption is on.
    pub fn open_incoming(&mut self, frame: &mut Vec<u8>)
        ensures
            final(self).enabled() == old(self).enabled(),
            !old(self).enabled() ==> final(frame)@ == old(frame)@,
            old(self).enabled() ==> {
                &&& final(frame)@ == cfb8_decrypt(old(self).key(), old(self).register(), old(frame)@).0
                &&& final(self).key() == old(self).key()
                &&& final(self).register() == cfb8_decrypt(old(self).key(), old(self).register(), old(frame)@).1
            },
    {
        match &mut self.encryption {
            Some(c) => {
                c.decrypt(frame.as_mut_slice());
            },
            None => {},
        }
    }

    /// The bytes to send for a frame (`data` is length prefix and body):
    /// unchanged without encryption; with it, the prefix in plain text and
    /// the body encrypted. A prefix with five continuation bytes is refused.
    pub fn seal_outgoing(&mut self, data: &[u8]) -> (r: Result<Vec<u8>, FrameError>)
        ensures
            !old(self).enabled() ==> (r matches Ok(out) && out@ == data@ && *final(self) == *old(self)),
            old(self).enabled() ==> match outgoing_prefix_len(data@) {
                Ok(n) => (r matches Ok(out)
                    && out@ == data@.subrange(0, n as int)
                        + cfb8_encrypt(old(self).key(), old(self).register(), data@.subrange(n as int, data@.len() as int)).0
                    && final(self).enabled()
                    && final(self).key() == old(self).key()
                    && final(self).register() == cfb8_encrypt(old(self).key(), old(self).register(),
                        data@.subrange(n as int, data@.len() as int)).1),
                Err(e) => r == Err::<Vec<u8>, FrameError>(e) && *final(self) == *old(self),
            },
    {
        match &mut self.encryption {
            Some(c) => {
                let n = match varint_prefix_len(data) {
                    Ok(n) => n,
                    Err(e) => {
                        return Err(e);
                    },
                };
                let mut out: Vec<u8> = Vec::new();
                let mut body: Vec<u8> = Vec::new();
                let mut i: usize = 0;
                while i < data.len()
                    invariant
                        n <= data@.len(),
                        i <= data@.len(),
                        out@ == data@.subrange(0, if i < n { i as int } else { n as int }),
                        body@ == data@.subrange(n as int, if i < n { n as int } else { i as int }),
                    decreases data@.len() - i,
                {
                    if i < n {
                        out.push(data[i]);
                    } else {
                        body.push(data[i]);
                    }
                    i = i + 1;
                    assert(out@ =~= data@.subrange(0, if i < n { i as int } else { n as int }));
                    assert(body@ =~= data@.subrange(n as int, if i < n { n as int } else { i as int }));
                }
                let ghost plain = body@;
                c.encrypt(body.as_mut_slice());
                let mut j: usize = 0;
                let ghost head = out@;
                while j < body.len()
                    invariant
                        j <= body@.len(),
                        out@ == head + body@.subrange(0, j as int),
                    decreases body@.len() - j,
                {
                    out.push(body[j]);
                    j = j + 1;
                    assert(out@ =~= head + body@.subrange(0, j as int));
                }
                assert(body@.subrange(0, body@.len() as int) =~= body@);
                Ok(out)
            },
            None => {
                let mut out: Vec<u8> = Vec::new();
                let mut i: usize = 0;
                while i < data.len()
                    invariant
                        i <= data@.len(),
                        out@ == data@.subrange(0, i as int),
                    decreases data@.len() - i,
                {
                    out.push(data[i]);
                    i = i + 1;
                    assert(out@ =~= data@.subrange(0, i as int));
                }
                assert(data@.subrange(0, data@.len() as int) =~= data@);
                Ok(out)
            },
        }
    }
}

} // verus!
