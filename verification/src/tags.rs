//! Tags of the mailbox property interface: the identifiers, the request
//! and response payload of each tag, and the tag header that tells a
//! request from a response.

use vstd::prelude::*;

verus! {

/// Bit 31 of the request/response code word: set in a response.
pub const RESPONSE_BIT: u32 = 0x8000_0000;

/// The request/response code word of a tag. Bits 0..=30 are reserved;
/// bit 31 is set by the firmware when it has written a response.
#[derive(Clone, Copy, Debug, PartialEq, Eq, Structural)]
pub struct TagReqResCode(pub u32);

impl TagReqResCode {
    pub open spec fn spec_is_response(self) -> bool {
        self.0 & RESPONSE_BIT != 0
    }

    /// The code word of a request: all bits clear.
    pub fn new() -> (code: Self)
        ensures
            code.0 == 0,
            !code.spec_is_response(),
    {
        assert(0u32 & 0x8000_0000u32 == 0) by (bit_vector);
        TagReqResCode(0)
    }

    pub fn from_bits(bits: u32) -> (code: Self)
        ensures
            code.0 == bits,
    {
        TagReqResCode(bits)
    }

    pub fn into_bits(self) -> (bits: u32)
        ensures
            bits == self.0,
    {
        self.0
    }

    /// Whether the response bit is set.
    pub fn is_response(&self) -> (r: bool)
        ensures
            r == self.spec_is_response(),
    {
        self.0 & RESPONSE_BIT != 0
    }

    /// The same code word with the response bit set or cleared; the
    /// reserved bits stay as they are.
    pub fn with_is_response(self, value: bool) -> (code: Self)
        ensures
            code.spec_is_response() == value,
            code.0 & 0x7FFF_FFFF == self.0 & 0x7FFF_FFFF,
    {
        let bits: u32 = self.0;
        if value {
            assert((bits | 0x8000_0000u32) & 0x8000_0000u32 != 0 && (bits | 0x8000_0000u32)
                & 0x7FFF_FFFFu32 == bits & 0x7FFF_FFFFu32) by (bit_vector);
            TagReqResCode(bits | RESPONSE_BIT)
        } else {
            assert((bits & 0x7FFF_FFFFu32) & 0x8000_0000u32 == 0 && (bits & 0x7FFF_FFFFu32)
                & 0x7FFF_FFFFu32 == bits & 0x7FFF_FFFFu32) by (bit_vector);
            TagReqResCode(bits & 0x7FFF_FFFF)
        }
    }
}

/// Identifier of a property tag.
#[derive(Clone, Copy, Debug, PartialEq, Eq, Structural)]
pub enum TagValue {
    FirmwareRevision,
    BoardModel,
    FBAllocateBuffer,
    FBReleaseBuffer,
    FBGetPhysicalSize,
    FBSetPhysicalSize,
    FBSetVirtualSize,
    /// Also known as depth.
    FBSetBitsPerPixel,
}

impl TagValue {
    /// The identifier as it is written into the property buffer.
    pub open spec fn spec_value(self) -> u32 {
        match self {
            TagValue::FirmwareRevision => 0x0_0001,
            TagValue::BoardModel => 0x1_0001,
            TagValue::FBAllocateBuffer => 0x4_0001,
            TagValue::FBReleaseBuffer => 0x4_8001,
            TagValue::FBGetPhysicalSize => 0x4_0003,
            TagValue::FBSetPhysicalSize => 0x4_8003,
            TagValue::FBSetVirtualSize => 0x4_8004,
            TagValue::FBSetBitsPerPixel => 0x4_8005,
        }
    }

    pub fn value(self) -> (v: u32)
        ensures
            v == self.spec_value(),
    {
        match self {
            TagValue::FirmwareRevision => 0x0_0001,
            TagValue::BoardModel => 0x1_0001,
            TagValue::FBAllocateBuffer => 0x4_0001,
            TagValue::FBReleaseBuffer => 0x4_8001,
            TagValue::FBGetPhysicalSize => 0x4_0003,
            TagValue::FBSetPhysicalSize => 0x4_8003,
            TagValue::FBSetVirtualSize => 0x4_8004,
            TagValue::FBSetBitsPerPixel => 0x4_8005,
        }
    }

    /// The tag with the given identifier, if there is one.
    pub fn from_value(v: u32) -> (tag: Option<TagValue>)
        ensures
            tag is Some ==> tag.unwrap().spec_value() == v,
            tag is None ==> forall|t: TagValue| t.spec_value() != v,
    {
        match v {
            0x0_0001 => Some(TagValue::FirmwareRevision),
            0x1_0001 => Some(TagValue::BoardModel),
            0x4_0001 => Some(TagValue::FBAllocateBuffer),
            0x4_8001 => Some(TagValue::FBReleaseBuffer),
            0x4_0003 => Some(TagValue::FBGetPhysicalSize),
            0x4_8003 => Some(TagValue::FBSetPhysicalSize),
            0x4_8004 => Some(TagValue::FBSetVirtualSize),
            0x4_8005 => Some(TagValue::FBSetBitsPerPixel),
            _ => None,
        }
    }
}

/// The payload of a tag: what was asked, or what the firmware answered.
/// In the property buffer both occupy the same words.
#[derive(Clone, Copy, Debug)]
pub enum TagData<Req: Copy, Res: Copy> {
    Request(Req),
    Response(Res),
}

/// One tag of a property buffer: identifier, payload size in bytes, code
/// word and payload.
#[derive(Clone, Copy, Debug)]
pub struct Tag<Req: Copy, Res: Copy> {
    pub id: TagValue,
    pub size: u32,
    pub req_res_code: TagReqResCode,
    pub data: TagData<Req, Res>,
}

impl<Req: Copy, Res: Copy> Tag<Req, Res> {
    /// The payload is a response exactly when the response bit is set.
    pub open spec fn wf(&self) -> bool {
        self.req_res_code.spec_is_response() == (self.data is Response)
    }

    /// Whether the tag still holds the request: the response bit is clear.
    pub fn is_request(&self) -> (r: bool)
        ensures
            r == !self.req_res_code.spec_is_response(),
    {
        !self.req_res_code.is_response()
    }

    /// Whether the firmware has answered: the response bit is set.
    pub fn is_response(&self) -> (r: bool)
        ensures
            r == self.req_res_code.spec_is_response(),
    {
        self.req_res_code.is_response()
    }

    /// The request, while the response bit is clear.
    pub open spec fn spec_request_of(&self) -> Option<Req> {
        if self.req_res_code.spec_is_response() {
            None
        } else {
            match self.data {
                TagData::Request(req) => Some(req),
                TagData::Response(_) => None,
            }
        }
    }

    /// The response, once the response bit is set.
    pub open spec fn spec_response_of(&self) -> Option<Res> {
        if self.req_res_code.spec_is_response() {
            match self.data {
                TagData::Request(_) => None,
                TagData::Response(res) => Some(res),
            }
        } else {
            None
        }
    }

    /// The request, while the response bit is clear.
    pub fn request_of(&self) -> (r: Option<Req>)
        ensures
            r == self.spec_request_of(),
    {
        if self.is_request() {
            match self.data {
                TagData::Request(req) => Some(req),
                TagData::Response(_) => None,
            }
        } else {
            None
        }
    }

    /// The response, once the response bit is set.
    pub fn response_of(&self) -> (r: Option<Res>)
        ensures
            r == self.spec_response_of(),
    {
        if self.is_response() {
            match self.data {
                TagData::Request(_) => None,
                TagData::Response(res) => Some(res),
            }
        } else {
            None
        }
    }

    /// The tag as the firmware leaves it after answering: the response bit
    /// set and the payload replaced by the response.
    pub fn answered(self, res: Res) -> (tag: Self)
        ensures
            tag.wf(),
            tag.id == self.id,
            tag.size == self.size,
            tag.spec_response_of() == Some(res),
            tag.spec_request_of() == None::<Req>,
    {
        Tag {
            id: self.id,
            size: self.size,
            req_res_code: self.req_res_code.with_is_response(true),
            data: TagData::Response(res),
        }
    }
}

/// A kind of tag with its request and response payloads.
pub trait TagInterface: Sized {
    /// The identifier of this kind of tag.
    const ID: TagValue;

    type Req;

    type Res;

    /// The request that the tag holds, if it still holds one.
    spec fn spec_request(&self) -> Option<Self::Req>;

    /// The response that the tag holds, if the firmware has answered.
    spec fn spec_response(&self) -> Option<Self::Res>;

    /// A tag that holds `req`, with the response bit clear.
    fn from_request(req: Self::Req) -> (tag: Self)
        ensures
            tag.spec_request() == Some(req),
            tag.spec_response() == None::<Self::Res>,
    ;

    fn request(&self) -> (r: Option<Self::Req>)
        ensures
            r == self.spec_request(),
    ;

    fn response(&self) -> (r: Option<Self::Res>)
        ensures
            r == self.spec_response(),
    ;
}

/// A request payload that knows the kind of tag it belongs to.
pub trait TagInterfaceRequest: Sized {
    type Tag: TagInterface<Req = Self>;

    /// The tag that holds this request.
    fn into_tag(self) -> (tag: Self::Tag)
        ensures
            tag.spec_request() == Some(self),
            tag.spec_response() == None::<<Self::Tag as TagInterface>::Res>,
    ;
}

/// Several tags sent in one property buffer.
pub trait TagBatch {
    type Res;

    /// The response of each tag, in order; nothing for a tag that the
    /// firmware has not answered.
    spec fn spec_responses(&self) -> Self::Res;

    fn responses(&self) -> (r: Self::Res)
        ensures
            r == self.spec_responses(),
    ;
}

impl<T1: TagInterface> TagBatch for (T1,) {
    type Res = (Option<T1::Res>,);

    open spec fn spec_responses(&self) -> Self::Res {
        (self.0.spec_response(),)
    }

    fn responses(&self) -> (r: Self::Res) {
        (self.0.response(),)
    }
}

impl<T1: TagInterface, T2: TagInterface> TagBatch for (T1, T2) {
    type Res = (Option<T1::Res>, Option<T2::Res>);

    open spec fn spec_responses(&self) -> Self::Res {
        (self.0.spec_response(), self.1.spec_response())
    }

    fn responses(&self) -> (r: Self::Res) {
        (self.0.response(), self.1.response())
    }
}

impl<T1: TagInterface, T2: TagInterface, T3: TagInterface> TagBatch for (T1, T2, T3) {
    type Res = (Option<T1::Res>, Option<T2::Res>, Option<T3::Res>);

    open spec fn spec_responses(&self) -> Self::Res {
        (self.0.spec_response(), self.1.spec_response(), self.2.spec_response())
    }

    fn responses(&self) -> (r: Self::Res) {
        (self.0.response(), self.1.response(), self.2.response())
    }
}

impl<T1: TagInterface, T2: TagInterface, T3: TagInterface, T4: TagInterface> TagBatch for (T1, T2, T3, T4) {
    type Res = (Option<T1::Res>, Option<T2::Res>, Option<T3::Res>, Option<T4::Res>);

    open spec fn spec_responses(&self) -> Self::Res {
        (self.0.spec_response(), self.1.spec_response(), self.2.spec_response(), self.3.spec_response())
    }

    fn responses(&self) -> (r: Self::Res) {
        (self.0.response(), self.1.response(), self.2.response(), self.3.response())
    }
}

impl<T1: TagInterface, T2: TagInterface, T3: TagInterface, T4: TagInterface, T5: TagInterface> TagBatch for (T1, T2, T3, T4, T5) {
    type Res = (Option<T1::Res>, Option<T2::Res>, Option<T3::Res>, Option<T4::Res>, Option<T5::Res>);

    open spec fn spec_responses(&self) -> Self::Res {
        (self.0.spec_response(), self.1.spec_response(), self.2.spec_response(), self.3.spec_response(), self.4.spec_response())
    }

    fn responses(&self) -> (r: Self::Res) {
        (self.0.response(), self.1.response(), self.2.response(), self.3.response(), self.4.response())
    }
}

/// Firmware revision: request payload.
#[derive(Clone, Copy, Debug, PartialEq, Eq, Structural)]
pub struct FirmwareRevisionRequest {
}

/// Firmware revision: response payload.
#[derive(Clone, Copy, Debug, PartialEq, Eq, Structural)]
pub struct FirmwareRevisionResponse {
    pub revision: u32,
}

pub type FirmwareRevisionTag = Tag<FirmwareRevisionRequest, FirmwareRevisionResponse>;

impl TagInterfaceRequest for FirmwareRevisionRequest {
    type Tag = FirmwareRevisionTag;

    fn into_tag(self) -> (tag: Self::Tag)
        ensures
            tag.wf(),
            tag.id == TagValue::FirmwareRevision,
            tag.req_res_code.0 == 0,
            tag.data == TagData::<FirmwareRevisionRequest, FirmwareRevisionResponse>::Request(self),
    {
        FirmwareRevisionTag::from_request(self)
    }
}

impl TagInterface for FirmwareRevisionTag {
    const ID: TagValue = TagValue::FirmwareRevision;

    type Req = FirmwareRevisionRequest;

    type Res = FirmwareRevisionResponse;

    open spec fn spec_request(&self) -> Option<FirmwareRevisionRequest> {
        self.spec_request_of()
    }

    open spec fn spec_response(&self) -> Option<FirmwareRevisionResponse> {
        self.spec_response_of()
    }

    /// The payload size is that of the request: 0 bytes.
    fn from_request(req: FirmwareRevisionRequest) -> (tag: FirmwareRevisionTag)
        ensures
            tag.wf(),
            tag.id == TagValue::FirmwareRevision,
            tag.size == 0,
            tag.req_res_code.0 == 0,
            tag.data == TagData::<FirmwareRevisionRequest, FirmwareRevisionResponse>::Request(req),
    {
        Tag {
            id: TagValue::FirmwareRevision,
            size: 0,
            req_res_code: TagReqResCode::new(),
            data: TagData::Request(req),
        }
    }

    fn request(&self) -> (r: Option<FirmwareRevisionRequest>) {
        self.request_of()
    }

    fn response(&self) -> (r: Option<FirmwareRevisionResponse>) {
        self.response_of()
    }
}

/// Board model: request payload.
#[derive(Clone, Copy, Debug, PartialEq, Eq, Structural)]
pub struct BoardModelRequest {
}

/// Board model: response payload.
#[derive(Clone, Copy, Debug, PartialEq, Eq, Structural)]
pub struct BoardModelResponse {
    pub model: u32,
}

pub type BoardModelTag = Tag<BoardModelRequest, BoardModelResponse>;

impl TagInterfaceRequest for BoardModelRequest {
    type Tag = BoardModelTag;

    fn into_tag(self) -> (tag: Self::Tag)
        ensures
            tag.wf(),
            tag.id == TagValue::BoardModel,
            tag.req_res_code.0 == 0,
            tag.data == TagData::<BoardModelRequest, BoardModelResponse>::Request(self),
    {
        BoardModelTag::from_request(self)
    }
}

impl TagInterface for BoardModelTag {
    const ID: TagValue = TagValue::BoardModel;

    type Req = BoardModelRequest;

    type Res = BoardModelResponse;

    open spec fn spec_request(&self) -> Option<BoardModelRequest> {
        self.spec_request_of()
    }

    open spec fn spec_response(&self) -> Option<BoardModelResponse> {
        self.spec_response_of()
    }

    /// The payload size is that of the request: 0 bytes.
    fn from_request(req: BoardModelRequest) -> (tag: BoardModelTag)
        ensures
            tag.wf(),
            tag.id == TagValue::BoardModel,
            tag.size == 0,
            tag.req_res_code.0 == 0,
            tag.data == TagData::<BoardModelRequest, BoardModelResponse>::Request(req),
    {
        Tag {
            id: TagValue::BoardModel,
            size: 0,
            req_res_code: TagReqResCode::new(),
            data: TagData::Request(req),
        }
    }

    fn request(&self) -> (r: Option<BoardModelRequest>) {
        self.request_of()
    }

    fn response(&self) -> (r: Option<BoardModelResponse>) {
        self.response_of()
    }
}

/// Allocate the frame buffer: request payload.
#[derive(Clone, Copy, Debug, PartialEq, Eq, Structural)]
pub struct FBAllocateBufferRequest {
    pub alignment: u32,
}

/// Allocate the frame buffer: response payload.
#[derive(Clone, Copy, Debug, PartialEq, Eq, Structural)]
pub struct FBAllocateBufferResponse {
    pub base_address: u32,
    pub size: u32,
}

pub type FBAllocateBufferTag = Tag<FBAllocateBufferRequest, FBAllocateBufferResponse>;

impl TagInterfaceRequest for FBAllocateBufferRequest {
    type Tag = FBAllocateBufferTag;

    fn into_tag(self) -> (tag: Self::Tag)
        ensures
            tag.wf(),
            tag.id == TagValue::FBAllocateBuffer,
            tag.req_res_code.0 == 0,
            tag.data == TagData::<FBAllocateBufferRequest, FBAllocateBufferResponse>::Request(self),
    {
        FBAllocateBufferTag::from_request(self)
    }
}

impl TagInterface for FBAllocateBufferTag {
    const ID: TagValue = TagValue::FBAllocateBuffer;

    type Req = FBAllocateBufferRequest;

    type Res = FBAllocateBufferResponse;

    open spec fn spec_request(&self) -> Option<FBAllocateBufferRequest> {
        self.spec_request_of()
    }

    open spec fn spec_response(&self) -> Option<FBAllocateBufferResponse> {
        self.spec_response_of()
    }

    /// The payload size is that of the request: 4 bytes.
    fn from_request(req: FBAllocateBufferRequest) -> (tag: FBAllocateBufferTag)
        ensures
            tag.wf(),
            tag.id == TagValue::FBAllocateBuffer,
            tag.size == 4,
            tag.req_res_code.0 == 0,
            tag.data == TagData::<FBAllocateBufferRequest, FBAllocateBufferResponse>::Request(req),
    {
        Tag {
            id: TagValue::FBAllocateBuffer,
            size: 4,
            req_res_code: TagReqResCode::new(),
            data: TagData::Request(req),
        }
    }

    fn request(&self) -> (r: Option<FBAllocateBufferRequest>) {
        self.request_of()
    }

    fn response(&self) -> (r: Option<FBAllocateBufferResponse>) {
        self.response_of()
    }
}

/// Release the frame buffer: request payload.
#[derive(Clone, Copy, Debug, PartialEq, Eq, Structural)]
pub struct FBReleaseBufferRequest {
}

/// Release the frame buffer: response payload.
#[derive(Clone, Copy, Debug, PartialEq, Eq, Structural)]
pub struct FBReleaseBufferResponse {
}

pub type FBReleaseBufferTag = Tag<FBReleaseBufferRequest, FBReleaseBufferResponse>;

impl TagInterfaceRequest for FBReleaseBufferRequest {
    type Tag = FBReleaseBufferTag;

    fn into_tag(self) -> (tag: Self::Tag)
        ensures
            tag.wf(),
            tag.id == TagValue::FBReleaseBuffer,
            tag.req_res_code.0 == 0,
            tag.data == TagData::<FBReleaseBufferRequest, FBReleaseBufferResponse>::Request(self),
    {
        FBReleaseBufferTag::from_request(self)
    }
}

impl TagInterface for FBReleaseBufferTag {
    const ID: TagValue = TagValue::FBReleaseBuffer;

    type Req = FBReleaseBufferRequest;

    type Res = FBReleaseBufferResponse;

    open spec fn spec_request(&self) -> Option<FBReleaseBufferRequest> {
        self.spec_request_of()
    }

    open spec fn spec_response(&self) -> Option<FBReleaseBufferResponse> {
        self.spec_response_of()
    }

    /// The payload size is that of the request: 0 bytes.
    fn from_request(req: FBReleaseBufferRequest) -> (tag: FBReleaseBufferTag)
        ensures
            tag.wf(),
            tag.id == TagValue::FBReleaseBuffer,
            tag.size == 0,
            tag.req_res_code.0 == 0,
            tag.data == TagData::<FBReleaseBufferRequest, FBReleaseBufferResponse>::Request(req),
    {
        Tag {
            id: TagValue::FBReleaseBuffer,
            size: 0,
            req_res_code: TagReqResCode::new(),
            data: TagData::Request(req),
        }
    }

    fn request(&self) -> (r: Option<FBReleaseBufferRequest>) {
        self.request_of()
    }

    fn response(&self) -> (r: Option<FBReleaseBufferResponse>) {
        self.response_of()
    }
}

/// Physical display size, read: request payload.
#[derive(Clone, Copy, Debug, PartialEq, Eq, Structural)]
pub struct FBGetPhysicalSizeRequest {
}

/// Physical display size, read: response payload.
#[derive(Clone, Copy, Debug, PartialEq, Eq, Structural)]
pub struct FBGetPhysicalSizeResponse {
    pub width: u32,
    pub height: u32,
}

pub type FBGetPhysicalSizeTag = Tag<FBGetPhysicalSizeRequest, FBGetPhysicalSizeResponse>;

impl TagInterfaceRequest for FBGetPhysicalSizeRequest {
    type Tag = FBGetPhysicalSizeTag;

    fn into_tag(self) -> (tag: Self::Tag)
        ensures
            tag.wf(),
            tag.id == TagValue::FBGetPhysicalSize,
            tag.req_res_code.0 == 0,
            tag.data == TagData::<FBGetPhysicalSizeRequest, FBGetPhysicalSizeResponse>::Request(self),
    {
        FBGetPhysicalSizeTag::from_request(self)
    }
}

impl TagInterface for FBGetPhysicalSizeTag {
    const ID: TagValue = TagValue::FBGetPhysicalSize;

    type Req = FBGetPhysicalSizeRequest;

    type Res = FBGetPhysicalSizeResponse;

    open spec fn spec_request(&self) -> Option<FBGetPhysicalSizeRequest> {
        self.spec_request_of()
    }

    open spec fn spec_response(&self) -> Option<FBGetPhysicalSizeResponse> {
        self.spec_response_of()
    }

    /// The payload size is that of the request: 0 bytes.
    fn from_request(req: FBGetPhysicalSizeRequest) -> (tag: FBGetPhysicalSizeTag)
        ensures
            tag.wf(),
            tag.id == TagValue::FBGetPhysicalSize,
            tag.size == 0,
            tag.req_res_code.0 == 0,
            tag.data == TagData::<FBGetPhysicalSizeRequest, FBGetPhysicalSizeResponse>::Request(req),
    {
        Tag {
            id: TagValue::FBGetPhysicalSize,
            size: 0,
            req_res_code: TagReqResCode::new(),
            data: TagData::Request(req),
        }
    }

    fn request(&self) -> (r: Option<FBGetPhysicalSizeRequest>) {
        self.request_of()
    }

    fn response(&self) -> (r: Option<FBGetPhysicalSizeResponse>) {
        self.response_of()
    }
}

/// Physical display size, set: request payload.
#[derive(Clone, Copy, Debug, PartialEq, Eq, Structural)]
pub struct FBSetPhysicalSizeRequest {
    pub width: u32,
    pub height: u32,
}

/// Physical display size, set: response payload.
#[derive(Clone, Copy, Debug, PartialEq, Eq, Structural)]
pub struct FBSetPhysicalSizeResponse {
    pub width: u32,
    pub height: u32,
}

pub type FBSetPhysicalSizeTag = Tag<FBSetPhysicalSizeRequest, FBSetPhysicalSizeResponse>;

impl TagInterfaceRequest for FBSetPhysicalSizeRequest {
    type Tag = FBSetPhysicalSizeTag;

    fn into_tag(self) -> (tag: Self::Tag)
        ensures
            tag.wf(),
            tag.id == TagValue::FBSetPhysicalSize,
            tag.req_res_code.0 == 0,
            tag.data == TagData::<FBSetPhysicalSizeRequest, FBSetPhysicalSizeResponse>::Request(self),
    {
        FBSetPhysicalSizeTag::from_request(self)
    }
}

impl TagInterface for FBSetPhysicalSizeTag {
    const ID: TagValue = TagValue::FBSetPhysicalSize;

    type Req = FBSetPhysicalSizeRequest;

    type Res = FBSetPhysicalSizeResponse;

    open spec fn spec_request(&self) -> Option<FBSetPhysicalSizeRequest> {
        self.spec_request_of()
    }

    open spec fn spec_response(&self) -> Option<FBSetPhysicalSizeResponse> {
        self.spec_response_of()
    }

    /// The payload size is that of the request: 8 bytes.
    fn from_request(req: FBSetPhysicalSizeRequest) -> (tag: FBSetPhysicalSizeTag)
        ensures
            tag.wf(),
            tag.id == TagValue::FBSetPhysicalSize,
            tag.size == 8,
            tag.req_res_code.0 == 0,
            tag.data == TagData::<FBSetPhysicalSizeRequest, FBSetPhysicalSizeResponse>::Request(req),
    {
        Tag {
            id: TagValue::FBSetPhysicalSize,
            size: 8,
            req_res_code: TagReqResCode::new(),
            data: TagData::Request(req),
        }
    }

    fn request(&self) -> (r: Option<FBSetPhysicalSizeRequest>) {
        self.request_of()
    }

    fn response(&self) -> (r: Option<FBSetPhysicalSizeResponse>) {
        self.response_of()
    }
}

/// Virtual buffer size, set: request payload.
#[derive(Clone, Copy, Debug, PartialEq, Eq, Structural)]
pub struct FBSetVirtualSizeRequest {
    pub width: u32,
    pub height: u32,
}

/// Virtual buffer size, set: response payload.
#[derive(Clone, Copy, Debug, PartialEq, Eq, Structural)]
pub struct FBSetVirtualSizeResponse {
    pub width: u32,
    pub height: u32,
}

pub type FBSetVirtualSizeTag = Tag<FBSetVirtualSizeRequest, FBSetVirtualSizeResponse>;

impl TagInterfaceRequest for FBSetVirtualSizeRequest {
    type Tag = FBSetVirtualSizeTag;

    fn into_tag(self) -> (tag: Self::Tag)
        ensures
            tag.wf(),
            tag.id == TagValue::FBSetVirtualSize,
            tag.req_res_code.0 == 0,
            tag.data == TagData::<FBSetVirtualSizeRequest, FBSetVirtualSizeResponse>::Request(self),
    {
        FBSetVirtualSizeTag::from_request(self)
    }
}

impl TagInterface for FBSetVirtualSizeTag {
    const ID: TagValue = TagValue::FBSetVirtualSize;

    type Req = FBSetVirtualSizeRequest;

    type Res = FBSetVirtualSizeResponse;

    open spec fn spec_request(&self) -> Option<FBSetVirtualSizeRequest> {
        self.spec_request_of()
    }

    open spec fn spec_response(&self) -> Option<FBSetVirtualSizeResponse> {
        self.spec_response_of()
    }

    /// The payload size is that of the request: 8 bytes.
    fn from_request(req: FBSetVirtualSizeRequest) -> (tag: FBSetVirtualSizeTag)
        ensures
            tag.wf(),
            tag.id == TagValue::FBSetVirtualSize,
            tag.size == 8,
            tag.req_res_code.0 == 0,
            tag.data == TagData::<FBSetVirtualSizeRequest, FBSetVirtualSizeResponse>::Request(req),
    {
        Tag {
            id: TagValue::FBSetVirtualSize,
            size: 8,
            req_res_code: TagReqResCode::new(),
            data: TagData::Request(req),
        }
    }

    fn request(&self) -> (r: Option<FBSetVirtualSizeRequest>) {
        self.request_of()
    }

    fn response(&self) -> (r: Option<FBSetVirtualSizeResponse>) {
        self.response_of()
    }
}

/// Bits per pixel, set: request payload.
#[derive(Clone, Copy, Debug, PartialEq, Eq, Structural)]
pub struct FBSetBitsPerPixelRequest {
    pub bpp: u32,
}

/// Bits per pixel, set: response payload.
#[derive(Clone, Copy, Debug, PartialEq, Eq, Structural)]
pub struct FBSetBitsPerPixelResponse {
    pub bpp: u32,
}

pub type FBSetBitsPerPixelTag = Tag<FBSetBitsPerPixelRequest, FBSetBitsPerPixelResponse>;

impl TagInterfaceRequest for FBSetBitsPerPixelRequest {
    type Tag = FBSetBitsPerPixelTag;

    fn into_tag(self) -> (tag: Self::Tag)
        ensures
            tag.wf(),
            tag.id == TagValue::FBSetBitsPerPixel,
            tag.req_res_code.0 == 0,
            tag.data == TagData::<FBSetBitsPerPixelRequest, FBSetBitsPerPixelResponse>::Request(self),
    {
        FBSetBitsPerPixelTag::from_request(self)
    }
}

impl TagInterface for FBSetBitsPerPixelTag {
    const ID: TagValue = TagValue::FBSetBitsPerPixel;

    type Req = FBSetBitsPerPixelRequest;

    type Res = FBSetBitsPerPixelResponse;

    open spec fn spec_request(&self) -> Option<FBSetBitsPerPixelRequest> {
        self.spec_request_of()
    }

    open spec fn spec_response(&self) -> Option<FBSetBitsPerPixelResponse> {
        self.spec_response_of()
    }

    /// The payload size is that of the request: 4 bytes.
    fn from_request(req: FBSetBitsPerPixelRequest) -> (tag: FBSetBitsPerPixelTag)
        ensures
            tag.wf(),
            tag.id == TagValue::FBSetBitsPerPixel,
            tag.size == 4,
            tag.req_res_code.0 == 0,
            tag.data == TagData::<FBSetBitsPerPixelRequest, FBSetBitsPerPixelResponse>::Request(req),
    {
        Tag {
            id: TagValue::FBSetBitsPerPixel,
            size: 4,
            req_res_code: TagReqResCode::new(),
            data: TagData::Request(req),
        }
    }

    fn request(&self) -> (r: Option<FBSetBitsPerPixelRequest>) {
        self.request_of()
    }

    fn response(&self) -> (r: Option<FBSetBitsPerPixelResponse>) {
        self.response_of()
    }
}

} // verus!
