//! The records shared with the kernel, as plain values and as byte images.
//!
//! Each record comes twice: a plain structure with named fields, and the
//! byte image the kernel reads or writes, laid out as the C structure of a
//! 64-bit little-endian machine.

use vstd::prelude::*;
use vstd::string::StringSliceAdditionalSpecFns;
use crate::linux_impl::codes::FF_RUMBLE;
use crate::linux_impl::wire::{
    get_i16, get_i32, get_i64, get_u16, get_u32, i16_at, i32_at, i32_le, i64_at, i64_le,
    lemma_bits_round_trip, lemma_read_appended, lemma_read_in_prefix, lemma_u32_round_trip,
    put_bytes, put_i32, put_i64, put_range, put_u16, put_u32, put_zeros, u16_at, u16_le, u32_at,
    u32_le, u64_at, u64_le, i64_bits, i32_bits, zeros,
};

verus! {

/// Size in bytes of the identity descriptor.
pub const SETUP_SIZE: usize = 92;

/// Size in bytes of the name field of the identity descriptor.
pub const NAME_SIZE: usize = 80;

/// Size in bytes of an axis descriptor.
pub const ABS_SETUP_SIZE: usize = 28;

/// Size in bytes of an event record.
pub const INPUT_EVENT_SIZE: usize = 24;

/// Size in bytes of an upload request.
pub const FF_UPLOAD_SIZE: usize = 104;

/// Size in bytes of an erase request.
pub const FF_ERASE_SIZE: usize = 12;

/// The identity a device announces.
#[derive(Debug, Clone, Copy)]
pub struct SafeSetup {
    pub bustype: u16,
    pub vendor: u16,
    pub product: u16,
    pub version: u16,
    pub ff_effects_max: u32,
    pub name: &'static str,
}

/// The name field: the name's bytes, then zero bytes up to the field's size.
pub open spec fn name_field(name: Seq<u8>) -> Seq<u8>
    recommends
        name.len() < NAME_SIZE,
{
    name + zeros((NAME_SIZE - name.len()) as nat)
}

/// The byte image of an identity descriptor.
pub open spec fn setup_bytes(safe: SafeSetup) -> Seq<u8>
    recommends
        safe.name.spec_bytes().len() < NAME_SIZE,
{
    u16_le(safe.bustype) + u16_le(safe.vendor) + u16_le(safe.product) + u16_le(safe.version)
        + name_field(safe.name.spec_bytes()) + u32_le(safe.ff_effects_max)
}

/// The byte image of an identity descriptor.
pub struct Setup {
    bytes: Vec<u8>,
}

impl Setup {
    #[verifier::type_invariant]
    spec fn wf(&self) -> bool {
        self.bytes@.len() == SETUP_SIZE
    }

    /// The bytes of the image.
    pub closed spec fn view(&self) -> Seq<u8> {
        self.bytes@
    }

    /// An image with every byte zero.
    pub fn new() -> (setup: Setup)
        ensures
            setup@ == zeros(SETUP_SIZE as nat),
    {
        let mut bytes: Vec<u8> = Vec::new();
        put_zeros(&mut bytes, SETUP_SIZE);
        Setup { bytes }
    }

    /// The image as the kernel is to read it.
    pub fn const_ptr(&self) -> (bytes: &[u8])
        ensures
            bytes@ == self@,
            bytes@.len() == SETUP_SIZE,
    {
        proof {
            use_type_invariant(self);
        }
        self.bytes.as_slice()
    }

    /// Lays the identity down. The name must leave room for the zero byte
    /// that ends it.
    pub fn from(safe: SafeSetup) -> (setup: Setup)
        requires
            safe.name.spec_bytes().len() < NAME_SIZE,
        ensures
            setup@ == setup_bytes(safe),
    {
        let name: &[u8] = safe.name.as_bytes();
        let mut bytes: Vec<u8> = Vec::new();
        put_u16(&mut bytes, safe.bustype);
        put_u16(&mut bytes, safe.vendor);
        put_u16(&mut bytes, safe.product);
        put_u16(&mut bytes, safe.version);
        put_bytes(&mut bytes, name);
        put_zeros(&mut bytes, NAME_SIZE - name.len());
        put_u32(&mut bytes, safe.ff_effects_max);
        assert(bytes@ =~= setup_bytes(safe));
        Setup { bytes }
    }
}

/// The range and behaviour of one absolute axis.
#[derive(Debug, Clone, Copy, PartialEq, Eq, Structural)]
pub struct SafeAbsSetup {
    pub code: u16,
    pub value: i32,
    pub minimum: i32,
    pub maximum: i32,
    pub fuzz: i32,
    pub flat: i32,
    pub resolution: i32,
}

/// The byte image of an axis descriptor.
pub open spec fn abs_setup_bytes(safe: SafeAbsSetup) -> Seq<u8> {
    u16_le(safe.code) + zeros(2) + i32_le(safe.value) + i32_le(safe.minimum) + i32_le(
        safe.maximum,
    ) + i32_le(safe.fuzz) + i32_le(safe.flat) + i32_le(safe.resolution)
}

/// The byte image of an axis descriptor.
pub struct AbsSetup {
    bytes: Vec<u8>,
}

impl AbsSetup {
    #[verifier::type_invariant]
    spec fn wf(&self) -> bool {
        self.bytes@.len() == ABS_SETUP_SIZE
    }

    /// The bytes of the image.
    pub closed spec fn view(&self) -> Seq<u8> {
        self.bytes@
    }

    /// An image with every byte zero.
    pub fn new() -> (setup: AbsSetup)
        ensures
            setup@ == zeros(ABS_SETUP_SIZE as nat),
    {
        let mut bytes: Vec<u8> = Vec::new();
        put_zeros(&mut bytes, ABS_SETUP_SIZE);
        AbsSetup { bytes }
    }

    /// The image as the kernel is to read it.
    pub fn const_ptr(&self) -> (bytes: &[u8])
        ensures
            bytes@ == self@,
            bytes@.len() == ABS_SETUP_SIZE,
    {
        proof {
            use_type_invariant(self);
        }
        self.bytes.as_slice()
    }

    /// Lays the descriptor down.
    pub fn from(safe: SafeAbsSetup) -> (setup: AbsSetup)
        ensures
            setup@ == abs_setup_bytes(safe),
    {
        let mut bytes: Vec<u8> = Vec::new();
        put_u16(&mut bytes, safe.code);
        put_zeros(&mut bytes, 2);
        put_i32(&mut bytes, safe.value);
        put_i32(&mut bytes, safe.minimum);
        put_i32(&mut bytes, safe.maximum);
        put_i32(&mut bytes, safe.fuzz);
        put_i32(&mut bytes, safe.flat);
        put_i32(&mut bytes, safe.resolution);
        assert(bytes@ =~= abs_setup_bytes(safe));
        AbsSetup { bytes }
    }
}

/// One event record, as a plain value. The time is the pair of seconds and
/// microseconds since the epoch.
#[derive(Debug, Clone, Copy, PartialEq, Eq)]
pub struct SafeInputEvent {
    pub code: u16,
    pub type_: u16,
    pub value: i32,
    pub time: (i64, i64),
}

/// The byte image of an event record.
pub open spec fn event_bytes(safe: SafeInputEvent) -> Seq<u8> {
    i64_le(safe.time.0) + i64_le(safe.time.1) + u16_le(safe.type_) + u16_le(safe.code) + i32_le(
        safe.value,
    )
}

/// The event record that a byte image holds.
pub open spec fn event_of(bytes: Seq<u8>) -> SafeInputEvent
    recommends
        bytes.len() == INPUT_EVENT_SIZE,
{
    SafeInputEvent {
        code: u16_at(bytes, 18),
        type_: u16_at(bytes, 16),
        value: i32_at(bytes, 20),
        time: (i64_at(bytes, 0), i64_at(bytes, 8)),
    }
}

/// The image of an event record up to and including its first `fields`
/// fields.
spec fn event_prefix(safe: SafeInputEvent, fields: int) -> Seq<u8> {
    if fields <= 0 {
        Seq::<u8>::empty()
    } else if fields == 1 {
        i64_le(safe.time.0)
    } else if fields == 2 {
        i64_le(safe.time.0) + i64_le(safe.time.1)
    } else if fields == 3 {
        i64_le(safe.time.0) + i64_le(safe.time.1) + u16_le(safe.type_)
    } else if fields == 4 {
        i64_le(safe.time.0) + i64_le(safe.time.1) + u16_le(safe.type_) + u16_le(safe.code)
    } else {
        event_bytes(safe)
    }
}

/// Each field of an event record is read back at the end of the prefix
/// that it closes, and the prefixes end where the layout says.
proof fn lemma_event_prefixes(safe: SafeInputEvent)
    ensures
        event_prefix(safe, 5) == event_bytes(safe),
        event_prefix(safe, 1).len() == 8,
        event_prefix(safe, 2).len() == 16,
        event_prefix(safe, 3).len() == 18,
        event_prefix(safe, 4).len() == 20,
        event_prefix(safe, 5).len() == INPUT_EVENT_SIZE,
        u64_at(event_prefix(safe, 1), 0) == i64_bits(safe.time.0),
        u64_at(event_prefix(safe, 2), 8) == i64_bits(safe.time.1),
        u16_at(event_prefix(safe, 3), 16) == safe.type_,
        u16_at(event_prefix(safe, 4), 18) == safe.code,
        u32_at(event_prefix(safe, 5), 20) == i32_bits(safe.value),
{
    let p0 = Seq::<u8>::empty();
    assert(event_prefix(safe, 1) =~= p0 + u64_le(i64_bits(safe.time.0)));
    lemma_read_appended(p0, 0, 0, i64_bits(safe.time.0));
    lemma_read_appended(event_prefix(safe, 1), 0, 0, i64_bits(safe.time.1));
    lemma_read_appended(event_prefix(safe, 2), safe.type_, 0, 0);
    lemma_read_appended(event_prefix(safe, 3), safe.code, 0, 0);
    lemma_read_appended(event_prefix(safe, 4), 0, i32_bits(safe.value), 0);
}

proof fn lemma_event_time(safe: SafeInputEvent)
    ensures
        i64_at(event_bytes(safe), 0) == safe.time.0,
        i64_at(event_bytes(safe), 8) == safe.time.1,
        event_bytes(safe).len() == INPUT_EVENT_SIZE,
{
    lemma_event_prefixes(safe);
    lemma_read_in_prefix(event_prefix(safe, 1), i64_le(safe.time.1), 0, 8);
    lemma_read_in_prefix(event_prefix(safe, 2), u16_le(safe.type_), 0, 8);
    lemma_read_in_prefix(event_prefix(safe, 2), u16_le(safe.type_), 8, 8);
    lemma_read_in_prefix(event_prefix(safe, 3), u16_le(safe.code), 0, 8);
    lemma_read_in_prefix(event_prefix(safe, 3), u16_le(safe.code), 8, 8);
    lemma_read_in_prefix(event_prefix(safe, 4), i32_le(safe.value), 0, 8);
    lemma_read_in_prefix(event_prefix(safe, 4), i32_le(safe.value), 8, 8);
    lemma_bits_round_trip(0, 0, safe.time.0);
    lemma_bits_round_trip(0, 0, safe.time.1);
}

proof fn lemma_event_kind(safe: SafeInputEvent)
    ensures
        u16_at(event_bytes(safe), 16) == safe.type_,
        u16_at(event_bytes(safe), 18) == safe.code,
        i32_at(event_bytes(safe), 20) == safe.value,
{
    lemma_event_prefixes(safe);
    lemma_read_in_prefix(event_prefix(safe, 3), u16_le(safe.code), 16, 2);
    lemma_read_in_prefix(event_prefix(safe, 4), i32_le(safe.value), 16, 2);
    lemma_read_in_prefix(event_prefix(safe, 4), i32_le(safe.value), 18, 2);
    lemma_bits_round_trip(0, safe.value, 0);
}

/// An event record read back from its own image is the record that was
/// laid down, and the image has the size of a record.
pub proof fn lemma_event_round_trip(safe: SafeInputEvent)
    ensures
        event_bytes(safe).len() == INPUT_EVENT_SIZE,
        event_of(event_bytes(safe)) == safe,
{
    lemma_event_time(safe);
    lemma_event_kind(safe);
}

impl SafeInputEvent {
    /// Reads the record out of its image.
    pub fn from(event: InputEvent) -> (safe: SafeInputEvent)
        ensures
            safe == event_of(event@),
    {
        proof {
            use_type_invariant(&event);
        }
        let bytes: &[u8] = event.bytes.as_slice();
        SafeInputEvent {
            code: get_u16(bytes, 18),
            type_: get_u16(bytes, 16),
            value: get_i32(bytes, 20),
            time: (get_i64(bytes, 0), get_i64(bytes, 8)),
        }
    }
}

/// The byte image of an event record.
pub struct InputEvent {
    bytes: Vec<u8>,
}

impl InputEvent {
    #[verifier::type_invariant]
    spec fn wf(&self) -> bool {
        self.bytes@.len() == INPUT_EVENT_SIZE
    }

    /// The bytes of the image.
    pub closed spec fn view(&self) -> Seq<u8> {
        self.bytes@
    }

    /// An image with every byte zero.
    pub fn new() -> (event: InputEvent)
        ensures
            event@ == zeros(INPUT_EVENT_SIZE as nat),
    {
        let mut bytes: Vec<u8> = Vec::new();
        put_zeros(&mut bytes, INPUT_EVENT_SIZE);
        InputEvent { bytes }
    }

    /// The number of bytes of every event record.
    pub fn size() -> (n: usize)
        ensures
            n == INPUT_EVENT_SIZE,
    {
        INPUT_EVENT_SIZE
    }

    /// The image as the kernel is to read it.
    pub fn c_ptr(&self) -> (bytes: &[u8])
        ensures
            bytes@ == self@,
            bytes@.len() == INPUT_EVENT_SIZE,
    {
        proof {
            use_type_invariant(self);
        }
        self.bytes.as_slice()
    }

    /// Lays the record down.
    pub fn from(safe: SafeInputEvent) -> (event: InputEvent)
        ensures
            event@ == event_bytes(safe),
    {
        let mut bytes: Vec<u8> = Vec::new();
        put_i64(&mut bytes, safe.time.0);
        put_i64(&mut bytes, safe.time.1);
        put_u16(&mut bytes, safe.type_);
        put_u16(&mut bytes, safe.code);
        put_i32(&mut bytes, safe.value);
        assert(bytes@ =~= event_bytes(safe));
        InputEvent { bytes }
    }

    /// Takes what a read from the device returned. The bytes are an event
    /// record exactly when there are as many as a record has.
    pub fn from_bytes(bytes: &[u8]) -> (event: Option<InputEvent>)
        ensures
            match event {
                Some(e) => bytes@.len() == INPUT_EVENT_SIZE && e@ == bytes@,
                None => bytes@.len() != INPUT_EVENT_SIZE,
            },
    {
        if bytes.len() == INPUT_EVENT_SIZE {
            let mut copy: Vec<u8> = Vec::new();
            put_bytes(&mut copy, bytes);
            Some(InputEvent { bytes: copy })
        } else {
            None
        }
    }
}

/// When an effect plays: for how long, and after what delay.
#[derive(Debug, Clone, Copy, PartialEq, Eq, Structural)]
pub struct VgpDeviceForceFeedbackReplay {
    pub length: u16,
    pub delay: u16,
}

/// What an effect does. Only rumble is recognised.
#[derive(Debug, Clone, Copy, PartialEq, Eq, Structural)]
pub enum VgpDeviceForceFeedbackType {
    Rumble { strong_magnitude: u16, weak_magnitude: u16 },
    Unsupported,
}

/// A force-feedback effect as the kernel describes it in an upload.
#[derive(Debug, Clone, Copy, PartialEq, Eq, Structural)]
pub struct VgpDeviceForceFeedback {
    pub id: i16,
    pub direction: u16,
    pub replay: VgpDeviceForceFeedbackReplay,
    pub type_: VgpDeviceForceFeedbackType,
}

/// The byte image of an upload request that names `request_id` and is
/// otherwise empty.
pub open spec fn upload_request_bytes(request_id: u32) -> Seq<u8> {
    u32_le(request_id) + zeros((FF_UPLOAD_SIZE - 4) as nat)
}

/// The effect that the image of an upload request describes.
pub open spec fn upload_effect(bytes: Seq<u8>) -> VgpDeviceForceFeedback
    recommends
        bytes.len() == FF_UPLOAD_SIZE,
{
    VgpDeviceForceFeedback {
        id: i16_at(bytes, 10),
        direction: u16_at(bytes, 12),
        replay: VgpDeviceForceFeedbackReplay {
            length: u16_at(bytes, 18),
            delay: u16_at(bytes, 20),
        },
        type_: if u16_at(bytes, 8) == FF_RUMBLE {
            VgpDeviceForceFeedbackType::Rumble {
                strong_magnitude: u16_at(bytes, 24),
                weak_magnitude: u16_at(bytes, 26),
            }
        } else {
            VgpDeviceForceFeedbackType::Unsupported
        },
    }
}

/// The image `bytes` with the answer `retval` written into its second field.
pub open spec fn with_retval(bytes: Seq<u8>, retval: i32) -> Seq<u8>
    recommends
        bytes.len() >= 8,
{
    bytes.subrange(0, 4) + i32_le(retval) + bytes.subrange(8, bytes.len() as int)
}

/// The byte image of a request to upload an effect. The kernel fills in
/// the effect; the device's owner fills in the answer.
pub struct ForceFeedbackUpload {
    bytes: Vec<u8>,
}

impl ForceFeedbackUpload {
    #[verifier::type_invariant]
    spec fn wf(&self) -> bool {
        self.bytes@.len() == FF_UPLOAD_SIZE
    }

    /// The bytes of the image.
    pub closed spec fn view(&self) -> Seq<u8> {
        self.bytes@
    }

    /// The request number that the image names.
    pub open spec fn request_id(&self) -> u32 {
        u32_at(self@, 0)
    }

    /// The answer that the image holds.
    pub open spec fn retval(&self) -> i32 {
        i32_at(self@, 4)
    }

    /// A request that names `request_id`, with every other byte zero.
    pub fn new(request_id: u32) -> (upload: ForceFeedbackUpload)
        ensures
            upload@ == upload_request_bytes(request_id),
            upload.request_id() == request_id,
    {
        let mut bytes: Vec<u8> = Vec::new();
        put_u32(&mut bytes, request_id);
        put_zeros(&mut bytes, FF_UPLOAD_SIZE - 4);
        proof {
            assert(bytes@ =~= Seq::<u8>::empty() + u32_le(request_id) + zeros(
                (FF_UPLOAD_SIZE - 4) as nat,
            ));
            lemma_u32_round_trip(
                request_id,
                Seq::<u8>::empty(),
                zeros((FF_UPLOAD_SIZE - 4) as nat),
            );
        }
        ForceFeedbackUpload { bytes }
    }

    /// The image as the kernel is to read it.
    pub fn mut_ptr(&self) -> (bytes: &[u8])
        ensures
            bytes@ == self@,
            bytes@.len() == FF_UPLOAD_SIZE,
    {
        proof {
            use_type_invariant(self);
        }
        self.bytes.as_slice()
    }

    /// Takes over the image as the kernel has rewritten it. Bytes of any
    /// other size than an upload request's are refused, and the image stays
    /// as it was.
    pub fn refill(&mut self, answer: &[u8]) -> (taken: bool)
        ensures
            taken == (answer@.len() == FF_UPLOAD_SIZE),
            final(self)@ == if taken {
                answer@
            } else {
                old(self)@
            },
    {
        if answer.len() == FF_UPLOAD_SIZE {
            let mut copy: Vec<u8> = Vec::new();
            put_bytes(&mut copy, answer);
            self.bytes = copy;
            true
        } else {
            false
        }
    }

    /// Writes the answer to the request; every other field stays.
    pub fn set_retval(&mut self, retval: i32)
        ensures
            final(self)@ == with_retval(old(self)@, retval),
            final(self).retval() == retval,
            final(self).request_id() == old(self).request_id(),
            upload_effect(final(self)@) == upload_effect(old(self)@),
    {
        proof {
            use_type_invariant(&*self);
        }
        let mut bytes: Vec<u8> = Vec::new();
        put_range(&mut bytes, self.bytes.as_slice(), 0, 4);
        put_i32(&mut bytes, retval);
        put_range(&mut bytes, self.bytes.as_slice(), 8, FF_UPLOAD_SIZE);
        proof {
            lemma_with_retval(self.bytes@, retval);
        }
        self.bytes = bytes;
    }

    /// The effect that the kernel described in the request.
    pub fn to_vgp_device_force_feedback(&self) -> (effect: VgpDeviceForceFeedback)
        ensures
            effect == upload_effect(self@),
    {
        proof {
            use_type_invariant(self);
        }
        let bytes: &[u8] = self.bytes.as_slice();
        VgpDeviceForceFeedback {
            id: get_i16(bytes, 10),
            direction: get_u16(bytes, 12),
            replay: VgpDeviceForceFeedbackReplay {
                length: get_u16(bytes, 18),
                delay: get_u16(bytes, 20),
            },
            type_: if get_u16(bytes, 8) == FF_RUMBLE {
                VgpDeviceForceFeedbackType::Rumble {
                    strong_magnitude: get_u16(bytes, 24),
                    weak_magnitude: get_u16(bytes, 26),
                }
            } else {
                VgpDeviceForceFeedbackType::Unsupported
            },
        }
    }
}

/// Writing the answer into an image changes the four bytes of the answer
/// and nothing else.
pub proof fn lemma_with_retval(bytes: Seq<u8>, retval: i32)
    requires
        bytes.len() >= 8,
    ensures
        with_retval(bytes, retval).len() == bytes.len(),
        i32_at(with_retval(bytes, retval), 4) == retval,
        forall|i: int|
            0 <= i < bytes.len() && !(4 <= i < 8) ==> with_retval(bytes, retval)[i] == bytes[i],
{
    let after = with_retval(bytes, retval);
    lemma_u32_round_trip(i32_bits(retval), bytes.subrange(0, 4), bytes.subrange(8, bytes.len() as int));
    lemma_bits_round_trip(0, retval, 0);
    assert forall|i: int| 0 <= i < bytes.len() && !(4 <= i < 8) implies after[i] == bytes[i] by {
        if i < 4 {
            assert(after[i] == bytes.subrange(0, 4)[i]);
        } else {
            assert(after[i] == bytes.subrange(8, bytes.len() as int)[i - 8]);
        }
    }
}

/// The byte image of an erase request that names `request_id` and is
/// otherwise empty.
pub open spec fn erase_request_bytes(request_id: u32) -> Seq<u8> {
    u32_le(request_id) + zeros((FF_ERASE_SIZE - 4) as nat)
}

/// The byte image of a request to erase an effect. The kernel fills in the
/// effect's number; the device's owner fills in the answer.
pub struct ForceFeedbackErase {
    bytes: Vec<u8>,
}

impl ForceFeedbackErase {
    #[verifier::type_invariant]
    spec fn wf(&self) -> bool {
        self.bytes@.len() == FF_ERASE_SIZE
    }

    /// The bytes of the image.
    pub closed spec fn view(&self) -> Seq<u8> {
        self.bytes@
    }

    /// The request number that the image names.
    pub open spec fn request_id(&self) -> u32 {
        u32_at(self@, 0)
    }

    /// The answer that the image holds.
    pub open spec fn retval(&self) -> i32 {
        i32_at(self@, 4)
    }

    /// The number of the effect that the image names.
    pub open spec fn effect_id(&self) -> u32 {
        u32_at(self@, 8)
    }

    /// A request that names `request_id`, with every other byte zero.
    pub fn new(request_id: u32) -> (erase: ForceFeedbackErase)
        ensures
            erase@ == erase_request_bytes(request_id),
            erase.request_id() == request_id,
    {
        let mut bytes: Vec<u8> = Vec::new();
        put_u32(&mut bytes, request_id);
        put_zeros(&mut bytes, FF_ERASE_SIZE - 4);
        proof {
            assert(bytes@ =~= Seq::<u8>::empty() + u32_le(request_id) + zeros(
                (FF_ERASE_SIZE - 4) as nat,
            ));
            lemma_u32_round_trip(
                request_id,
                Seq::<u8>::empty(),
                zeros((FF_ERASE_SIZE - 4) as nat),
            );
        }
        ForceFeedbackErase { bytes }
    }

    /// The image as the kernel is to read it.
    pub fn mut_ptr(&self) -> (bytes: &[u8])
        ensures
            bytes@ == self@,
            bytes@.len() == FF_ERASE_SIZE,
    {
        proof {
            use_type_invariant(self);
        }
        self.bytes.as_slice()
    }

    /// Takes over the image as the kernel has rewritten it. Bytes of any
    /// other size than an erase request's are refused, and the image stays
    /// as it was.
    pub fn refill(&mut self, answer: &[u8]) -> (taken: bool)
        ensures
            taken == (answer@.len() == FF_ERASE_SIZE),
            final(self)@ == if taken {
                answer@
            } else {
                old(self)@
            },
    {
        if answer.len() == FF_ERASE_SIZE {
            let mut copy: Vec<u8> = Vec::new();
            put_bytes(&mut copy, answer);
            self.bytes = copy;
            true
        } else {
            false
        }
    }

    /// Writes the answer to the request; every other field stays.
    pub fn set_retval(&mut self, retval: i32)
        ensures
            final(self)@ == with_retval(old(self)@, retval),
            final(self).retval() == retval,
            final(self).request_id() == old(self).request_id(),
            final(self).effect_id() == old(self).effect_id(),
    {
        proof {
            use_type_invariant(&*self);
        }
        let mut bytes: Vec<u8> = Vec::new();
        put_range(&mut bytes, self.bytes.as_slice(), 0, 4);
        put_i32(&mut bytes, retval);
        put_range(&mut bytes, self.bytes.as_slice(), 8, FF_ERASE_SIZE);
        proof {
            lemma_with_retval(self.bytes@, retval);
        }
        self.bytes = bytes;
    }

    /// The number of the effect that the kernel asks to erase.
    pub fn get_effect_id(&self) -> (id: u32)
        ensures
            id == self.effect_id(),
    {
        proof {
            use_type_invariant(self);
        }
        get_u32(self.bytes.as_slice(), 8)
    }
}

} // verus!
