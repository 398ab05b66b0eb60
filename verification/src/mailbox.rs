//! The mailbox to the firmware: the message word, the status and reply
//! codes, and the order of reads and writes of one exchange.
//!
//! The exchange is a state machine. The machine decides; the caller reads
//! and writes the mailbox registers and reports what it read.

use vstd::prelude::*;

verus! {

/// The channel of property requests from the CPU to the firmware.
pub const PROPERTY_CHANNEL: u8 = 8;

/// Status bit: the mailbox takes no further message.
pub const STATUS_FULL: u32 = 0x8000_0000;

/// Status bit: the mailbox holds no message.
pub const STATUS_EMPTY: u32 = 0x4000_0000;

/// Buffer code of a request that is to be processed.
pub const PROCESS_REQUEST: u32 = 0;

/// Buffer code of a request that the firmware has processed.
pub const REQUEST_SUCCESSFUL: u32 = 0x8000_0000;

/// Buffer code of a request that the firmware could not parse.
pub const REQUEST_ERROR: u32 = 0x8000_0001;

/// The channels of the mailbox.
#[derive(Clone, Copy, Debug, PartialEq, Eq, Structural)]
pub enum Channel {
    CpuToVc,
    VcToCpu,
}

impl Channel {
    pub fn number(self) -> (n: u8)
        ensures
            n == match self {
                Channel::CpuToVc => 8u8,
                Channel::VcToCpu => 9u8,
            },
    {
        match self {
            Channel::CpuToVc => 8,
            Channel::VcToCpu => 9,
        }
    }
}

/// A value of a mailbox status register.
#[derive(Clone, Copy, Debug, PartialEq, Eq, Structural)]
pub struct Status(pub u32);

impl Status {
    pub open spec fn spec_contains(self, flags: u32) -> bool {
        self.0 & flags == flags
    }

    /// The status with exactly the bits of `bits`, known or not.
    pub fn from_bits_retain(bits: u32) -> (status: Self)
        ensures
            status.0 == bits,
    {
        Status(bits)
    }

    /// Whether every bit of `flags` is set.
    pub fn contains(&self, flags: u32) -> (r: bool)
        ensures
            r == self.spec_contains(flags),
    {
        self.0 & flags == flags
    }
}

/// Whether a value of the write status register says that the mailbox
/// takes no further message.
pub fn send_is_full(write_status: u32) -> (full: bool)
    ensures
        full == Status(write_status).spec_contains(STATUS_FULL),
{
    Status::from_bits_retain(write_status).contains(STATUS_FULL)
}

/// Whether a value of the read status register says that the mailbox
/// holds no message.
pub fn read_is_empty(read_status: u32) -> (empty: bool)
    ensures
        empty == Status(read_status).spec_contains(STATUS_EMPTY),
{
    Status::from_bits_retain(read_status).contains(STATUS_EMPTY)
}

/// The request/response code of a property buffer.
#[derive(Clone, Copy, Debug, PartialEq, Eq, Structural)]
pub struct BufferReqResCode(pub u32);

impl BufferReqResCode {
    pub open spec fn spec_contains(self, flags: u32) -> bool {
        self.0 & flags == flags
    }

    pub fn from_bits_retain(bits: u32) -> (code: Self)
        ensures
            code.0 == bits,
    {
        BufferReqResCode(bits)
    }

    /// Whether every bit of `flags` is set.
    pub fn contains(&self, flags: u32) -> (r: bool)
        ensures
            r == self.spec_contains(flags),
    {
        self.0 & flags == flags
    }
}

/// A word of the mailbox data registers: the channel in bits 0..=3 and the
/// upper 28 bits of a 16-byte aligned buffer address in bits 4..=31.
#[derive(Clone, Copy, Debug, PartialEq, Eq, Structural)]
pub struct MessagePtr(pub u32);

impl MessagePtr {
    pub open spec fn spec_channel(self) -> u8 {
        (self.0 & 0xF) as u8
    }

    pub open spec fn spec_ptr(self) -> u32 {
        self.0 >> 4
    }

    /// The buffer address that the word names.
    pub open spec fn spec_prop_buf(self) -> u32 {
        (self.0 >> 4) << 4
    }

    /// The word with channel 0 and address 0.
    pub fn new() -> (m: Self)
        ensures
            m.0 == 0,
    {
        MessagePtr(0)
    }

    pub fn from_bits(bits: u32) -> (m: Self)
        ensures
            m.0 == bits,
    {
        MessagePtr(bits)
    }

    pub fn into_bits(self) -> (bits: u32)
        ensures
            bits == self.0,
    {
        self.0
    }

    pub fn channel(&self) -> (c: u8)
        ensures
            c == self.spec_channel(),
            c < 16,
    {
        let bits: u32 = self.0;
        assert(bits & 0xF < 16) by (bit_vector);
        (bits & 0xF) as u8
    }

    pub fn ptr(&self) -> (p: u32)
        ensures
            p == self.spec_ptr(),
            p < 0x1000_0000,
    {
        let bits: u32 = self.0;
        assert(bits >> 4 < 0x1000_0000) by (bit_vector);
        bits >> 4
    }

    /// The same word with the channel replaced.
    pub fn with_channel(self, channel: u8) -> (m: Self)
        requires
            channel < 16,
        ensures
            m.spec_channel() == channel,
            m.spec_ptr() == self.spec_ptr(),
    {
        let bits: u32 = self.0;
        let c: u32 = channel as u32;
        assert((((bits & 0xFFFF_FFF0) | c) & 0xF) == c && (((bits & 0xFFFF_FFF0) | c) >> 4) == bits
            >> 4) by (bit_vector)
            requires
                c < 16,
        ;
        MessagePtr((bits & 0xFFFF_FFF0) | c)
    }

    /// The same word with the address bits replaced.
    pub fn with_ptr(self, ptr: u32) -> (m: Self)
        requires
            ptr < 0x1000_0000,
        ensures
            m.spec_ptr() == ptr,
            m.spec_channel() == self.spec_channel(),
    {
        let bits: u32 = self.0;
        assert((((bits & 0xF) | (ptr << 4)) >> 4) == ptr && (((bits & 0xF) | (ptr << 4)) & 0xF) == (
        bits & 0xF)) by (bit_vector)
            requires
                ptr < 0x1000_0000,
        ;
        MessagePtr((bits & 0xF) | (ptr << 4))
    }

    /// The same word with the address of a property buffer; the lowest
    /// four bits of the address are dropped.
    pub fn with_prop_buf(self, buf: u32) -> (m: Self)
        ensures
            m.spec_channel() == self.spec_channel(),
            m.spec_ptr() == buf >> 4,
            m.spec_prop_buf() == (buf >> 4) << 4,
            buf % 16 == 0 ==> m.spec_prop_buf() == buf,
    {
        assert(buf >> 4 < 0x1000_0000 && (buf % 16 == 0 ==> (buf >> 4) << 4 == buf))
            by (bit_vector);
        self.with_ptr(buf >> 4)
    }

    /// The buffer address that the word names.
    pub fn prop_buf(&self) -> (buf: u32)
        ensures
            buf == self.spec_prop_buf(),
            buf % 16 == 0,
    {
        let bits: u32 = self.0;
        assert(((bits >> 4) << 4) % 16 == 0) by (bit_vector);
        self.ptr() << 4
    }
}

/// The header and footer of a property buffer around its tags.
#[derive(Clone, Copy, Debug)]
pub struct PropertyBuffer<T> {
    pub size: u32,
    pub req_res_code: BufferReqResCode,
    pub tags: T,
    pub end_tag: u32,
}

impl<T> PropertyBuffer<T> {
    /// A buffer of `size` bytes that asks for `tags` to be processed.
    pub fn request(size: u32, tags: T) -> (buffer: Self)
        ensures
            buffer.size == size,
            buffer.req_res_code.0 == PROCESS_REQUEST,
            buffer.tags == tags,
            buffer.end_tag == 0,
    {
        PropertyBuffer { size, req_res_code: BufferReqResCode(PROCESS_REQUEST), tags, end_tag: 0 }
    }
}

/// What an exchange gives its caller: the response, unless the firmware
/// flagged the buffer as an error or left the tag unanswered.
pub fn check_reply<Res>(code: BufferReqResCode, response: Option<Res>) -> (r: Result<Res, ()>)
    ensures
        r == if code.spec_contains(REQUEST_ERROR) {
            Err::<Res, ()>(())
        } else {
            match response {
                Some(res) => Ok::<Res, ()>(res),
                None => Err::<Res, ()>(()),
            }
        },
{
    if code.contains(REQUEST_ERROR) {
        return Err(());
    }
    match response {
        Some(res) => Ok(res),
        None => Err(()),
    }
}

/// What a batch exchange gives its caller: the responses as they are,
/// unless the firmware flagged the buffer as an error.
pub fn check_batch_reply<Res>(code: BufferReqResCode, responses: Res) -> (r: Result<Res, ()>)
    ensures
        r == if code.spec_contains(REQUEST_ERROR) {
            Err::<Res, ()>(())
        } else {
            Ok::<Res, ()>(responses)
        },
{
    if code.contains(REQUEST_ERROR) {
        Err(())
    } else {
        Ok(responses)
    }
}

/// Where an exchange stands.
#[derive(Clone, Copy, Debug, PartialEq, Eq, Structural)]
pub enum ExchangeStep {
    /// Waiting for the mailbox to take a message.
    AwaitSpace,
    /// The message word is being written.
    Sending,
    /// Waiting for the mailbox to hold a message.
    AwaitMessage,
    /// Reading messages until one arrives on the property channel.
    AwaitReply,
    /// The reply has arrived.
    Complete,
}

/// What the caller reports back.
#[derive(Clone, Copy, Debug, PartialEq, Eq, Structural)]
pub enum ExchangeEvent {
    /// The value read from the write status register.
    WriteStatus(u32),
    /// The message word has been written.
    Written,
    /// The value read from the read status register.
    ReadStatus(u32),
    /// The word read from the read register.
    Message(u32),
}

/// What the caller is asked to do.
#[derive(Clone, Copy, Debug, PartialEq, Eq, Structural)]
pub enum ExchangeAction {
    /// Read the write status register and report its value.
    ReadWriteStatus,
    /// Write the word to the write register.
    Write(u32),
    /// Read the read status register and report its value.
    ReadReadStatus,
    /// Read the read register and report the word.
    ReadMessage,
    /// The reply lies in the property buffer at the address.
    Deliver(u32),
    /// The report does not fit the step; nothing is to be done for it.
    Nothing,
}

/// The message word of a request: the property channel and the address of
/// the buffer.
pub open spec fn spec_request_word(buf: u32) -> u32 {
    ((buf >> 4) << 4) | 8
}

/// The step and the action that follow on a report.
///
/// A full mailbox is asked again, and so is an empty one. Once there is
/// space the word is written; once there is a message, words are read
/// until one carries the property channel, and its address is delivered.
pub open spec fn spec_exchange_next(step: ExchangeStep, event: ExchangeEvent, buf: u32) -> (
    ExchangeStep,
    ExchangeAction,
) {
    match (step, event) {
        (ExchangeStep::AwaitSpace, ExchangeEvent::WriteStatus(status)) => if Status(
            status,
        ).spec_contains(STATUS_FULL) {
            (ExchangeStep::AwaitSpace, ExchangeAction::ReadWriteStatus)
        } else {
            (ExchangeStep::Sending, ExchangeAction::Write(spec_request_word(buf)))
        },
        (ExchangeStep::Sending, ExchangeEvent::Written) => (
            ExchangeStep::AwaitMessage,
            ExchangeAction::ReadReadStatus,
        ),
        (ExchangeStep::AwaitMessage, ExchangeEvent::ReadStatus(status)) => if Status(
            status,
        ).spec_contains(STATUS_EMPTY) {
            (ExchangeStep::AwaitMessage, ExchangeAction::ReadReadStatus)
        } else {
            (ExchangeStep::AwaitReply, ExchangeAction::ReadMessage)
        },
        (ExchangeStep::AwaitReply, ExchangeEvent::Message(word)) => if MessagePtr(
            word,
        ).spec_channel() == PROPERTY_CHANNEL {
            (ExchangeStep::Complete, ExchangeAction::Deliver(MessagePtr(word).spec_prop_buf()))
        } else {
            (ExchangeStep::AwaitReply, ExchangeAction::ReadMessage)
        },
        _ => (step, ExchangeAction::Nothing),
    }
}

/// One exchange with the firmware about the property buffer at `buf`.
#[derive(Clone, Copy, Debug, PartialEq, Eq, Structural)]
pub struct Exchange {
    pub buf: u32,
    pub step: ExchangeStep,
}

impl Exchange {
    /// Starts an exchange: the machine waits for space and asks for the
    /// write status.
    pub fn start(buf: u32) -> (r: (Exchange, ExchangeAction))
        ensures
            r.0 == (Exchange { buf, step: ExchangeStep::AwaitSpace }),
            r.1 == ExchangeAction::ReadWriteStatus,
    {
        (Exchange { buf, step: ExchangeStep::AwaitSpace }, ExchangeAction::ReadWriteStatus)
    }

    /// The message word of the request.
    pub fn request_word(&self) -> (word: u32)
        ensures
            word == spec_request_word(self.buf),
            MessagePtr(word).spec_channel() == PROPERTY_CHANNEL,
            MessagePtr(word).spec_prop_buf() == (self.buf >> 4) << 4,
    {
        let buf: u32 = self.buf;
        let m = MessagePtr::new().with_channel(PROPERTY_CHANNEL).with_prop_buf(buf);
        assert(m.0 == ((buf >> 4) << 4) | 8) by {
            let w = m.0;
            assert(w == ((buf >> 4) << 4) | 8) by (bit_vector)
                requires
                    (w & 0xF) as u8 == 8u8,
                    w >> 4 == buf >> 4,
            ;
        }
        m.into_bits()
    }

    /// Takes a report and returns what to do next.
    pub fn advance(&mut self, event: ExchangeEvent) -> (action: ExchangeAction)
        ensures
            final(self).buf == old(self).buf,
            (final(self).step, action) == spec_exchange_next(old(self).step, event, old(self).buf),
    {
        match (self.step, event) {
            (ExchangeStep::AwaitSpace, ExchangeEvent::WriteStatus(status)) => {
                if send_is_full(status) {
                    ExchangeAction::ReadWriteStatus
                } else {
                    self.step = ExchangeStep::Sending;
                    ExchangeAction::Write(self.request_word())
                }
            },
            (ExchangeStep::Sending, ExchangeEvent::Written) => {
                self.step = ExchangeStep::AwaitMessage;
                ExchangeAction::ReadReadStatus
            },
            (ExchangeStep::AwaitMessage, ExchangeEvent::ReadStatus(status)) => {
                if read_is_empty(status) {
                    ExchangeAction::ReadReadStatus
                } else {
                    self.step = ExchangeStep::AwaitReply;
                    ExchangeAction::ReadMessage
                }
            },
            (ExchangeStep::AwaitReply, ExchangeEvent::Message(word)) => {
                let message = MessagePtr::from_bits(word);
                if message.channel() == PROPERTY_CHANNEL {
                    self.step = ExchangeStep::Complete;
                    ExchangeAction::Deliver(message.prop_buf())
                } else {
                    ExchangeAction::ReadMessage
                }
            },
            _ => ExchangeAction::Nothing,
        }
    }
}

} // verus!
