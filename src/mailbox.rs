use vstd::prelude::*;

use crate::addr::MmioAddress;
use crate::error::Error;

verus! {

/// Number of 32-bit words in a mailbox buffer.
pub const MAILBOX_WORDS: usize = 36;

/// Index of the first tag in a mailbox buffer, after the size and code words.
pub const FIRST_TAG_INDEX: usize = 2;

/// Bytes taken by the size and code words that head a mailbox buffer.
pub const HEADER_BYTES: u32 = 8;

/// Code word of a request, in the buffer header and in each tag.
pub const CODE_REQUEST: u32 = 0;

/// Whole-buffer code word of a request the firmware carried out.
pub const CODE_RESPONSE: u32 = 0x8000_0000;

/// Whole-buffer code word of a request the firmware refused.
pub const CODE_RESPONSE_ERROR: u32 = 0x8000_0001;

/// The zero word that ends the list of tags.
pub const TAG_LAST: u32 = 0;

/// Offset of the mailbox registers from the MMIO base.
pub const MAILBOX_REGISTERS_OFFSET: u32 = 0xb880;

/// Status register bit: the outgoing mailbox is full.
pub const STATUS_FULL: u32 = 0x8000_0000;

/// Status register bit: the incoming mailbox is empty.
pub const STATUS_EMPTY: u32 = 0x4000_0000;

/// The mailbox hardware registers, at their fixed offsets from the MMIO base.
pub struct MailboxRegisters {
    base: MmioAddress,
}

impl MailboxRegisters {
    #[verifier::type_invariant]
    spec fn fits(self) -> bool {
        self.base@ + 0x20 <= u32::MAX
    }

    /// Address of the first mailbox register.
    pub closed spec fn base(&self) -> u32 {
        self.base@
    }

    /// The mailbox registers of the board whose MMIO window starts at `mmio_base`.
    pub fn new(mmio_base: u32) -> (r: MailboxRegisters)
        requires
            mmio_base + MAILBOX_REGISTERS_OFFSET + 0x20 <= u32::MAX,
        ensures
            r.base() == mmio_base + MAILBOX_REGISTERS_OFFSET,
    {
        MailboxRegisters { base: MmioAddress::new(mmio_base, MAILBOX_REGISTERS_OFFSET) }
    }

    /// The read/write FIFO register.
    pub fn read_write(&self) -> (r: MmioAddress)
        ensures
            r@ == self.base(),
    {
        proof {
            use_type_invariant(self);
        }
        self.base.offset(0x00)
    }

    /// The peek register.
    pub fn peek(&self) -> (r: MmioAddress)
        ensures
            r@ == self.base() + 0x10,
    {
        proof {
            use_type_invariant(self);
        }
        self.base.offset(0x10)
    }

    /// The sender register.
    pub fn sender(&self) -> (r: MmioAddress)
        ensures
            r@ == self.base() + 0x14,
    {
        proof {
            use_type_invariant(self);
        }
        self.base.offset(0x14)
    }

    /// The status register (bit 31: outgoing full, bit 30: incoming empty).
    pub fn status(&self) -> (r: MmioAddress)
        ensures
            r@ == self.base() + 0x18,
    {
        proof {
            use_type_invariant(self);
        }
        self.base.offset(0x18)
    }

    /// The configuration register.
    pub fn config(&self) -> (r: MmioAddress)
        ensures
            r@ == self.base() + 0x1c,
    {
        proof {
            use_type_invariant(self);
        }
        self.base.offset(0x1c)
    }

    /// The register that takes a buffer address together with its channel.
    pub fn write(&self) -> (r: MmioAddress)
        ensures
            r@ == self.base() + 0x20,
    {
        proof {
            use_type_invariant(self);
        }
        self.base.offset(0x20)
    }
}

/// The sub-mailboxes that share the one hardware FIFO.
#[derive(Debug, Clone, Copy, PartialEq, Eq, Structural)]
pub enum Channel {
    PowerManagement,
    Framebuffer,
    VirtualUart,
    Vchiq,
    Led,
    Button,
    Touchscreen,
    Count,
    PropertyTags,
}

impl Channel {
    /// The channel's number, carried in the low four bits of a mailbox word.
    pub open spec fn spec_number(self) -> u32 {
        match self {
            Channel::PowerManagement => 0,
            Channel::Framebuffer => 1,
            Channel::VirtualUart => 2,
            Channel::Vchiq => 3,
            Channel::Led => 4,
            Channel::Button => 5,
            Channel::Touchscreen => 6,
            Channel::Count => 7,
            Channel::PropertyTags => 8,
        }
    }

    #[verifier::when_used_as_spec(spec_number)]
    pub fn number(self) -> (r: u32)
        ensures
            r == self.spec_number(),
            r < 16,
    {
        match self {
            Channel::PowerManagement => 0,
            Channel::Framebuffer => 1,
            Channel::VirtualUart => 2,
            Channel::Vchiq => 3,
            Channel::Led => 4,
            Channel::Button => 5,
            Channel::Touchscreen => 6,
            Channel::Count => 7,
            Channel::PropertyTags => 8,
        }
    }
}

/// Property tags of the firmware interface.
#[derive(Debug, Clone, Copy, PartialEq, Eq, Structural)]
pub enum TagId {
    VideoCoreGetFirmwareVersion,
    HardwareGetBoardModel,
    HardwareGetBoardRevision,
    HardwareGetBoardMacAddress,
    HardwareGetBoardSerial,
    HardwareGetArmMemory,
    HardwareGetVideoCoreMemory,
    HardwareGetClocks,
    ConfigGetCommandLine,
    SharedResourceManagementGetDmaChannels,
    PowerGetPowerState,
    PowerGetTiming,
    PowerSetPowerState,
    ClocksGetClockState,
    ClocksSetClockState,
    ClocksGetClockRate,
    ClocksGetOnboardLedState,
    ClocksTestOnboardLedState,
    ClocksSetOnboardLedState,
    ClocksGetClockRateMeasured,
    ClocksSetClockRate,
    ClocksGetMaxClockRate,
    ClocksGetMinClockRate,
    ClocksGetTurbo,
    ClocksSetTurbo,
    VoltageGetVoltage,
    VoltageSetVoltage,
    VoltageGetMaxVoltage,
    VoltageGetMinVoltage,
    VoltageGetTemperature,
    VoltageGetMaxTemperature,
    VoltageAllocateMemory,
    VoltageLockMemory,
    VoltageUnlockMemory,
    VoltageReleaseMemory,
    VoltageExecuteCode,
    VoltageGetDispmanxResourceMemoryHandle,
    VoltageGetEdidBlock,
    FramebufferAllocateBuffer,
    FramebufferReleaseBuffer,
    FramebufferBlankScreen,
    FramebufferGetPhysicalWidthHeight,
    FramebufferTestPhysicalWidthHeight,
    FramebufferSetPhysicalWidthHeight,
    FramebufferGetVirtualWidthHeight,
    FramebufferTestVirtualWidthHeight,
    FramebufferSetVirtualWidthHeight,
    FramebufferGetDepth,
    FramebufferTestDepth,
    FramebufferSetDepth,
    FramebufferGetPixelOrder,
    FramebufferTestPixelOrder,
    FramebufferSetPixelOrder,
    FramebufferGetAlphaMode,
    FramebufferTestAlphaMode,
    FramebufferSetAlphaMode,
    FramebufferGetPitch,
    FramebufferGetVirtualOffset,
    FramebufferTestVirtualOffset,
    FramebufferSetVirtualOffset,
    FramebufferOverscan,
    FramebufferTestOverscan,
    FramebufferSetOverscan,
    FramebufferGetPalette,
    FramebufferTestPalette,
    FramebufferSetPalette,
    FramebufferSetCursorInfo,
    FramebufferSetCursorState,
    FramebufferSetScreenGamma,
}

impl TagId {
    /// The tag's identifier on the wire.
    pub open spec fn spec_value(self) -> u32 {
        match self {
            TagId::VideoCoreGetFirmwareVersion => 0x1,
            TagId::HardwareGetBoardModel => 0x10001,
            TagId::HardwareGetBoardRevision => 0x10002,
            TagId::HardwareGetBoardMacAddress => 0x10003,
            TagId::HardwareGetBoardSerial => 0x10004,
            TagId::HardwareGetArmMemory => 0x10005,
            TagId::HardwareGetVideoCoreMemory => 0x10006,
            TagId::HardwareGetClocks => 0x10007,
            TagId::ConfigGetCommandLine => 0x50001,
            TagId::SharedResourceManagementGetDmaChannels => 0x60001,
            TagId::PowerGetPowerState => 0x20001,
            TagId::PowerGetTiming => 0x20002,
            TagId::PowerSetPowerState => 0x28001,
            TagId::ClocksGetClockState => 0x30001,
            TagId::ClocksSetClockState => 0x38001,
            TagId::ClocksGetClockRate => 0x30002,
            TagId::ClocksGetOnboardLedState => 0x30041,
            TagId::ClocksTestOnboardLedState => 0x34041,
            TagId::ClocksSetOnboardLedState => 0x38041,
            TagId::ClocksGetClockRateMeasured => 0x30047,
            TagId::ClocksSetClockRate => 0x38002,
            TagId::ClocksGetMaxClockRate => 0x30004,
            TagId::ClocksGetMinClockRate => 0x30007,
            TagId::ClocksGetTurbo => 0x30009,
            TagId::ClocksSetTurbo => 0x38009,
            TagId::VoltageGetVoltage => 0x30003,
            TagId::VoltageSetVoltage => 0x38003,
            TagId::VoltageGetMaxVoltage => 0x30005,
            TagId::VoltageGetMinVoltage => 0x30008,
            TagId::VoltageGetTemperature => 0x30006,
            TagId::VoltageGetMaxTemperature => 0x3000a,
            TagId::VoltageAllocateMemory => 0x3000c,
            TagId::VoltageLockMemory => 0x3000d,
            TagId::VoltageUnlockMemory => 0x3000e,
            TagId::VoltageReleaseMemory => 0x3000f,
            TagId::VoltageExecuteCode => 0x30010,
            TagId::VoltageGetDispmanxResourceMemoryHandle => 0x30014,
            TagId::VoltageGetEdidBlock => 0x30020,
            TagId::FramebufferAllocateBuffer => 0x40001,
            TagId::FramebufferReleaseBuffer => 0x48001,
            TagId::FramebufferBlankScreen => 0x40002,
            TagId::FramebufferGetPhysicalWidthHeight => 0x40003,
            TagId::FramebufferTestPhysicalWidthHeight => 0x44003,
            TagId::FramebufferSetPhysicalWidthHeight => 0x48003,
            TagId::FramebufferGetVirtualWidthHeight => 0x40004,
            TagId::FramebufferTestVirtualWidthHeight => 0x44004,
            TagId::FramebufferSetVirtualWidthHeight => 0x48004,
            TagId::FramebufferGetDepth => 0x40005,
            TagId::FramebufferTestDepth => 0x44005,
            TagId::FramebufferSetDepth => 0x48005,
            TagId::FramebufferGetPixelOrder => 0x40006,
            TagId::FramebufferTestPixelOrder => 0x44006,
            TagId::FramebufferSetPixelOrder => 0x48006,
            TagId::FramebufferGetAlphaMode => 0x40007,
            TagId::FramebufferTestAlphaMode => 0x44007,
            TagId::FramebufferSetAlphaMode => 0x48007,
            TagId::FramebufferGetPitch => 0x40008,
            TagId::FramebufferGetVirtualOffset => 0x40009,
            TagId::FramebufferTestVirtualOffset => 0x44009,
            TagId::FramebufferSetVirtualOffset => 0x48009,
            TagId::FramebufferOverscan => 0x4000a,
            TagId::FramebufferTestOverscan => 0x4400a,
            TagId::FramebufferSetOverscan => 0x4800a,
            TagId::FramebufferGetPalette => 0x4000b,
            TagId::FramebufferTestPalette => 0x4400b,
            TagId::FramebufferSetPalette => 0x4800b,
            TagId::FramebufferSetCursorInfo => 0x8010,
            TagId::FramebufferSetCursorState => 0x8011,
            TagId::FramebufferSetScreenGamma => 0x8012,
        }
    }

    #[verifier::when_used_as_spec(spec_value)]
    pub fn value(self) -> (r: u32)
        ensures
            r == self.spec_value(),
            r != TAG_LAST,
    {
        match self {
            TagId::VideoCoreGetFirmwareVersion => 0x1,
            TagId::HardwareGetBoardModel => 0x10001,
            TagId::HardwareGetBoardRevision => 0x10002,
            TagId::HardwareGetBoardMacAddress => 0x10003,
            TagId::HardwareGetBoardSerial => 0x10004,
            TagId::HardwareGetArmMemory => 0x10005,
            TagId::HardwareGetVideoCoreMemory => 0x10006,
            TagId::HardwareGetClocks => 0x10007,
            TagId::ConfigGetCommandLine => 0x50001,
            TagId::SharedResourceManagementGetDmaChannels => 0x60001,
            TagId::PowerGetPowerState => 0x20001,
            TagId::PowerGetTiming => 0x20002,
            TagId::PowerSetPowerState => 0x28001,
            TagId::ClocksGetClockState => 0x30001,
            TagId::ClocksSetClockState => 0x38001,
            TagId::ClocksGetClockRate => 0x30002,
            TagId::ClocksGetOnboardLedState => 0x30041,
            TagId::ClocksTestOnboardLedState => 0x34041,
            TagId::ClocksSetOnboardLedState => 0x38041,
            TagId::ClocksGetClockRateMeasured => 0x30047,
            TagId::ClocksSetClockRate => 0x38002,
            TagId::ClocksGetMaxClockRate => 0x30004,
            TagId::ClocksGetMinClockRate => 0x30007,
            TagId::ClocksGetTurbo => 0x30009,
            TagId::ClocksSetTurbo => 0x38009,
            TagId::VoltageGetVoltage => 0x30003,
            TagId::VoltageSetVoltage => 0x38003,
            TagId::VoltageGetMaxVoltage => 0x30005,
            TagId::VoltageGetMinVoltage => 0x30008,
            TagId::VoltageGetTemperature => 0x30006,
            TagId::VoltageGetMaxTemperature => 0x3000a,
            TagId::VoltageAllocateMemory => 0x3000c,
            TagId::VoltageLockMemory => 0x3000d,
            TagId::VoltageUnlockMemory => 0x3000e,
            TagId::VoltageReleaseMemory => 0x3000f,
            TagId::VoltageExecuteCode => 0x30010,
            TagId::VoltageGetDispmanxResourceMemoryHandle => 0x30014,
            TagId::VoltageGetEdidBlock => 0x30020,
            TagId::FramebufferAllocateBuffer => 0x40001,
            TagId::FramebufferReleaseBuffer => 0x48001,
            TagId::FramebufferBlankScreen => 0x40002,
            TagId::FramebufferGetPhysicalWidthHeight => 0x40003,
            TagId::FramebufferTestPhysicalWidthHeight => 0x44003,
            TagId::FramebufferSetPhysicalWidthHeight => 0x48003,
            TagId::FramebufferGetVirtualWidthHeight => 0x40004,
            TagId::FramebufferTestVirtualWidthHeight => 0x44004,
            TagId::FramebufferSetVirtualWidthHeight => 0x48004,
            TagId::FramebufferGetDepth => 0x40005,
            TagId::FramebufferTestDepth => 0x44005,
            TagId::FramebufferSetDepth => 0x48005,
            TagId::FramebufferGetPixelOrder => 0x40006,
            TagId::FramebufferTestPixelOrder => 0x44006,
            TagId::FramebufferSetPixelOrder => 0x48006,
            TagId::FramebufferGetAlphaMode => 0x40007,
            TagId::FramebufferTestAlphaMode => 0x44007,
            TagId::FramebufferSetAlphaMode => 0x48007,
            TagId::FramebufferGetPitch => 0x40008,
            TagId::FramebufferGetVirtualOffset => 0x40009,
            TagId::FramebufferTestVirtualOffset => 0x44009,
            TagId::FramebufferSetVirtualOffset => 0x48009,
            TagId::FramebufferOverscan => 0x4000a,
            TagId::FramebufferTestOverscan => 0x4400a,
            TagId::FramebufferSetOverscan => 0x4800a,
            TagId::FramebufferGetPalette => 0x4000b,
            TagId::FramebufferTestPalette => 0x4400b,
            TagId::FramebufferSetPalette => 0x4800b,
            TagId::FramebufferSetCursorInfo => 0x8010,
            TagId::FramebufferSetCursorState => 0x8011,
            TagId::FramebufferSetScreenGamma => 0x8012,
        }
    }
}

/// The words of a request tag with `value_words` words of value area: its
/// identifier, the value area's size in bytes, the request code, the zeroed
/// value area, and the terminator.
pub open spec fn request_tag(id: u32, value_words: nat) -> Seq<u32> {
    seq![id, (value_words * 4) as u32, CODE_REQUEST] + Seq::new(value_words, |i: int| 0u32) + seq![
        TAG_LAST,
    ]
}

/// A property tag ready to be appended to a mailbox buffer.
pub struct Tag {
    words: Vec<u32>,
}

impl View for Tag {
    type V = Seq<u32>;

    closed spec fn view(&self) -> Seq<u32> {
        self.words@
    }
}

impl Tag {
    /// A request for property `id` with a value area of `value_words` words.
    pub fn new(id: TagId, value_words: usize) -> (r: Tag)
        requires
            value_words * 4 <= u32::MAX,
        ensures
            r@ == request_tag(id.spec_value(), value_words as nat),
            well_formed_tag(r@),
    {
        let mut words: Vec<u32> = Vec::new();
        words.push(id.value());
        words.push((value_words * 4) as u32);
        words.push(CODE_REQUEST);
        let mut i: usize = 0;
        while i < value_words
            invariant
                i <= value_words,
                words@ == seq![id.spec_value(), (value_words * 4) as u32, CODE_REQUEST] + Seq::new(
                    i as nat,
                    |k: int| 0u32,
                ),
            decreases value_words - i,
        {
            words.push(0);
            i = i + 1;
        }
        words.push(TAG_LAST);
        proof {
            assert(words@ =~= request_tag(id.spec_value(), value_words as nat));
        }
        Tag { words }
    }

    /// The tag's words, in wire order.
    pub fn slice(&self) -> (r: &[u32])
        ensures
            r@ == self@,
    {
        self.words.as_slice()
    }
}

/// Number of words a tag whose value area is `value_bytes` long takes in a
/// buffer: its identifier, size and code words, and its value area rounded up
/// to whole words.
pub open spec fn tag_span(value_bytes: u32) -> int {
    3 + (value_bytes + 3) / 4
}

/// Where the tags starting at index `i` end, going from each tag to the next
/// by its value-size word: the first index holding a zero tag identifier, or
/// the buffer length when the tags run to the end of the buffer or past it.
pub open spec fn end_from(words: Seq<u32>, i: int) -> int
    decreases words.len() - i,
{
    if i < 0 || i >= words.len() {
        words.len() as int
    } else if words[i] == TAG_LAST {
        i
    } else if i + 1 >= words.len() || i + tag_span(words[i + 1]) >= words.len() {
        words.len() as int
    } else {
        end_from(words, i + tag_span(words[i + 1]))
    }
}

/// Where the tags of a buffer end: the zero tag identifier that follows the
/// last of them.
pub open spec fn tags_end(words: Seq<u32>) -> int {
    end_from(words, FIRST_TAG_INDEX as int)
}

/// `size` increased by `bytes`, wrapping around at 2^32.
pub open spec fn grown_size(size: u32, bytes: int) -> u32 {
    if size + bytes <= u32::MAX {
        (size + bytes) as u32
    } else {
        (size + bytes - 0x1_0000_0000) as u32
    }
}

/// The words of a fresh buffer: the header's size, then zeros.
pub open spec fn empty_request() -> Seq<u32> {
    seq![HEADER_BYTES] + Seq::new((MAILBOX_WORDS - 1) as nat, |i: int| 0u32)
}

/// The buffer `words` with `tag` appended where its tags end and its declared
/// size grown by the tag's bytes; `None` when no word would be left after the
/// tag for the terminator.
pub open spec fn append_tag(words: Seq<u32>, tag: Seq<u32>) -> Option<Seq<u32>> {
    let end = tags_end(words);
    if end + tag.len() >= MAILBOX_WORDS {
        None
    } else {
        Some(
            words.update(0, grown_size(words[0], 4 * tag.len() as int)).take(end) + tag + words.skip(
                end + tag.len(),
            ),
        )
    }
}

/// The buffer after appending each of `tags` in turn; `None` once one does not fit.
pub open spec fn append_tags(words: Seq<u32>, tags: Seq<Seq<u32>>) -> Option<Seq<u32>>
    decreases tags.len(),
{
    if tags.len() == 0 {
        Some(words)
    } else {
        match append_tags(words, tags.drop_last()) {
            None => None,
            Some(w) => append_tag(w, tags.last()),
        }
    }
}

/// The number of words in all of `tags` together.
pub open spec fn total_words(tags: Seq<Seq<u32>>) -> nat
    decreases tags.len(),
{
    if tags.len() == 0 {
        0
    } else {
        total_words(tags.drop_last()) + tags.last().len()
    }
}

/// Whether `tag` has the shape of a request tag: a nonzero identifier, a
/// value-size word that accounts for every word up to the last, and a closing
/// zero word, which the next tag appended replaces.
pub open spec fn well_formed_tag(tag: Seq<u32>) -> bool {
    &&& tag.len() >= 4
    &&& tag[0] != TAG_LAST
    &&& tag.len() == tag_span(tag[1]) + 1
    &&& tag.last() == TAG_LAST
}

/// The words that `tags` occupy once appended in turn: each tag without its
/// closing zero word.
pub open spec fn tag_body(tags: Seq<Seq<u32>>) -> Seq<u32>
    decreases tags.len(),
{
    if tags.len() == 0 {
        seq![]
    } else {
        tag_body(tags.drop_last()) + tags.last().drop_last()
    }
}

/// A buffer declaring `size` bytes whose tags are `tags`, one after another
/// from the first tag slot, followed by zero words to the end.
pub open spec fn laid_out(size: u32, tags: Seq<Seq<u32>>) -> Seq<u32> {
    seq![size, CODE_REQUEST] + tag_body(tags) + Seq::new(
        (MAILBOX_WORDS - FIRST_TAG_INDEX - tag_body(tags).len()) as nat,
        |i: int| 0u32,
    )
}

proof fn lemma_body_len(tags: Seq<Seq<u32>>)
    requires
        forall|j: int| 0 <= j < tags.len() ==> well_formed_tag(#[trigger] tags[j]),
    ensures
        tag_body(tags).len() + tags.len() == total_words(tags),
    decreases tags.len(),
{
    if tags.len() > 0 {
        assert(well_formed_tag(tags[tags.len() - 1]));
        lemma_body_len(tags.drop_last());
    }
}

proof fn lemma_body_prefix(tags: Seq<Seq<u32>>, j: int)
    requires
        0 <= j <= tags.len(),
    ensures
        tag_body(tags.take(j)).len() <= tag_body(tags).len(),
        tag_body(tags).take(tag_body(tags.take(j)).len() as int) == tag_body(tags.take(j)),
    decreases tags.len(),
{
    if j == tags.len() {
        assert(tags.take(j) =~= tags);
        assert(tag_body(tags).take(tag_body(tags).len() as int) =~= tag_body(tags));
    } else {
        let prev = tags.drop_last();
        assert(tags.take(j) =~= prev.take(j));
        lemma_body_prefix(prev, j);
        assert(tag_body(tags).take(tag_body(tags.take(j)).len() as int) =~= tag_body(tags.take(j)));
    }
}

proof fn lemma_body_step(tags: Seq<Seq<u32>>, j: int)
    requires
        0 <= j < tags.len(),
    ensures
        tag_body(tags.take(j + 1)) == tag_body(tags.take(j)) + tags[j].drop_last(),
{
    assert(tags.take(j + 1).drop_last() =~= tags.take(j));
}

/// Walking the tags of a buffer laid out from `tags`, from the start of the
/// `j`-th tag, ends just past the last tag.
proof fn lemma_walk(size: u32, tags: Seq<Seq<u32>>, j: int)
    requires
        forall|k: int| 0 <= k < tags.len() ==> well_formed_tag(#[trigger] tags[k]),
        FIRST_TAG_INDEX + total_words(tags) < MAILBOX_WORDS,
        0 <= j <= tags.len(),
    ensures
        end_from(laid_out(size, tags), FIRST_TAG_INDEX + tag_body(tags.take(j)).len())
            == FIRST_TAG_INDEX + tag_body(tags).len(),
    decreases tags.len() - j,
{
    let w = laid_out(size, tags);
    let body = tag_body(tags);
    lemma_body_len(tags);
    lemma_body_prefix(tags, j);
    let p = FIRST_TAG_INDEX + tag_body(tags.take(j)).len();
    if j == tags.len() {
        assert(tags.take(j) =~= tags);
        assert(w[p] == 0);
    } else {
        let t = tags[j];
        assert(well_formed_tag(t));
        lemma_body_step(tags, j);
        lemma_body_prefix(tags, j + 1);
        let before = tag_body(tags.take(j)).len() as int;
        let upto = tag_body(tags.take(j + 1));
        assert(upto.len() == before + t.len() - 1);
        assert(body[before] == upto[before]);
        assert(body[before + 1] == upto[before + 1]);
        assert(w[p] == t[0]);
        assert(w[p + 1] == t[1]);
        lemma_walk(size, tags, j + 1);
    }
}

/// Appending well-formed tags to a fresh buffer, as long as they fit
/// together with the header and one more word: every append succeeds; the
/// tags lie one after another from the first tag slot, each replacing only
/// the closing zero word of the one before; the declared size is the header's
/// 8 bytes plus 4 bytes for each word of every tag; and every word after the
/// last tag is zero, so the buffer ends in a zero sentinel.
pub proof fn lemma_appended_size_and_sentinel(tags: Seq<Seq<u32>>)
    requires
        forall|j: int| 0 <= j < tags.len() ==> well_formed_tag(#[trigger] tags[j]),
        FIRST_TAG_INDEX + total_words(tags) < MAILBOX_WORDS,
    ensures
        append_tags(empty_request(), tags) == Some(
            laid_out((HEADER_BYTES + 4 * total_words(tags)) as u32, tags),
        ),
        append_tags(empty_request(), tags)->Some_0.len() == MAILBOX_WORDS,
        append_tags(empty_request(), tags)->Some_0[0] == HEADER_BYTES + 4 * total_words(tags),
        forall|i: int|
            FIRST_TAG_INDEX + tag_body(tags).len() <= i < MAILBOX_WORDS ==> #[trigger] append_tags(
                empty_request(),
                tags,
            )->Some_0[i] == 0,
    decreases tags.len(),
{
    lemma_body_len(tags);
    if tags.len() == 0 {
        assert(laid_out(HEADER_BYTES, tags) =~= empty_request());
    } else {
        let prev = tags.drop_last();
        let t = tags.last();
        assert(well_formed_tag(t));
        assert forall|j: int| 0 <= j < prev.len() implies well_formed_tag(#[trigger] prev[j]) by {
            assert(prev[j] == tags[j]);
        }
        lemma_appended_size_and_sentinel(prev);
        lemma_body_len(prev);
        let size = (HEADER_BYTES + 4 * total_words(prev)) as u32;
        let w = laid_out(size, prev);
        assert(prev.take(0) =~= Seq::<Seq<u32>>::empty());
        lemma_walk(size, prev, 0);
        let end = FIRST_TAG_INDEX + tag_body(prev).len();
        assert(tags_end(w) == end);
        let next = append_tag(w, t)->Some_0;
        let goal = laid_out((HEADER_BYTES + 4 * total_words(tags)) as u32, tags);
        assert(tag_body(tags) == tag_body(prev) + t.drop_last());
        assert forall|i: int| 0 <= i < MAILBOX_WORDS implies next[i] == goal[i] by {
            if i >= end && i < end + t.len() - 1 {
                assert(next[i] == t[i - end]);
                assert(goal[i] == tag_body(tags)[i - FIRST_TAG_INDEX]);
            } else if i == end + t.len() - 1 {
                assert(next[i] == t[t.len() - 1]);
            }
        }
        assert(next =~= goal);
    }
}

/// A mailbox buffer: `[total size in bytes, code, tags..., 0, ...]`.
///
/// The hardware needs the buffer at a 16-byte aligned address; whoever
/// places it in memory for a call sees to that.
pub struct Mailbox {
    words: [u32; 36],
}

impl View for Mailbox {
    type V = Seq<u32>;

    closed spec fn view(&self) -> Seq<u32> {
        self.words@
    }
}

impl Mailbox {
    /// A mailbox buffer always has `MAILBOX_WORDS` words.
    pub proof fn lemma_words_len(&self)
        ensures
            self@.len() == MAILBOX_WORDS,
    {
    }

    /// An empty request: declared size of the header alone, request code, all zero after.
    pub fn new() -> (r: Mailbox)
        ensures
            r@ == empty_request(),
    {
        let mut words = [0u32; 36];
        words[0] = HEADER_BYTES;
        proof {
            assert(words@ =~= empty_request());
        }
        Mailbox { words }
    }

    /// A buffer holding exactly `words`, as read back from memory after a call.
    pub fn from_words(words: [u32; 36]) -> (r: Mailbox)
        ensures
            r@ == words@,
    {
        Mailbox { words }
    }

    /// The buffer's words, to be placed in memory for a call.
    pub fn words(&self) -> (r: [u32; 36])
        ensures
            r@ == self@,
    {
        self.words
    }

    /// The declared total size in bytes.
    pub fn read_size(&self) -> (r: u32)
        ensures
            r == self@[0],
    {
        self.words[0]
    }

    fn write_size(&mut self, size: u32)
        ensures
            final(self)@ == old(self)@.update(0, size),
    {
        self.words[0] = size;
    }

    /// The whole-buffer code word.
    pub fn read_request_code(&self) -> (r: u32)
        ensures
            r == self@[1],
    {
        self.words[1]
    }

    /// Appends `tag` where the earlier tags end, on the zero identifier that
    /// follows the last of them, and grows the declared size by the tag's
    /// bytes; no word of an earlier tag is written. Fails with `BufferFull`,
    /// changing nothing, when the tag would leave no word after it for the
    /// terminator. On success, returns the index the tag starts at.
    pub fn write_tag(&mut self, tag: &[u32]) -> (r: Result<usize, Error>)
        ensures
            append_tag(old(self)@, tag@) is None ==> r == Err::<usize, Error>(Error::BufferFull)
                && final(self)@ == old(self)@,
            append_tag(old(self)@, tag@) is Some ==> r == Ok::<usize, Error>(
                tags_end(old(self)@) as usize,
            ) && final(self)@ == append_tag(old(self)@, tag@)->Some_0,
    {
        let mut offset: usize = FIRST_TAG_INDEX;
        while offset < MAILBOX_WORDS && self.words[offset] != TAG_LAST
            invariant
                FIRST_TAG_INDEX <= offset <= MAILBOX_WORDS,
                self@ == old(self)@,
                self@.len() == MAILBOX_WORDS,
                end_from(self@, offset as int) == tags_end(self@),
            decreases MAILBOX_WORDS - offset,
        {
            if offset + 1 >= MAILBOX_WORDS {
                offset = MAILBOX_WORDS;
            } else {
                let next = offset as u64 + 3 + (self.words[offset + 1] as u64 + 3) / 4;
                if next >= MAILBOX_WORDS as u64 {
                    offset = MAILBOX_WORDS;
                } else {
                    offset = next as usize;
                }
            }
        }
        if tag.len() >= MAILBOX_WORDS - offset {
            return Err(Error::BufferFull);
        }
        let ghost start = self@;
        let mut i: usize = 0;
        while i < tag.len()
            invariant
                offset + tag@.len() < MAILBOX_WORDS,
                i <= tag@.len(),
                self@.len() == MAILBOX_WORDS,
                start.len() == MAILBOX_WORDS,
                self@ == start.take(offset as int) + tag@.take(i as int) + start.skip(offset + i),
            decreases tag.len() - i,
        {
            let ghost before = self@;
            self.words[offset + i] = tag[i];
            proof {
                assert(self@ == before.update(offset + i, tag@[i as int]));
                assert(self@ =~= start.take(offset as int) + tag@.take(i + 1) + start.skip(offset + i + 1));
            }
            i = i + 1;
        }
        let size = self.words[0].wrapping_add((tag.len() * 4) as u32);
        self.write_size(size);
        proof {
            assert(tag@.take(tag@.len() as int) =~= tag@);
            assert(self@ =~= start.update(0, size).take(offset as int) + tag@ + start.skip(offset + tag@.len()));
        }
        Ok(offset)
    }

    /// What the whole-buffer code word says of the call just made.
    pub fn response_status(&self) -> (r: Result<(), Error>)
        ensures
            r == status_result(self@[1]),
    {
        let code = self.words[1];
        if code == CODE_RESPONSE {
            Ok(())
        } else if code == CODE_RESPONSE_ERROR {
            Err(Error::FirmwareRejected)
        } else if code == CODE_REQUEST {
            Err(Error::NoResponse)
        } else {
            Err(Error::UnknownResponseStatus)
        }
    }

    /// Whether the buffer was answered and the tag starting at `tag_index`
    /// carries the response bit in its own code word.
    fn tag_answer(&self, tag_index: usize) -> (r: Result<(), Error>)
        requires
            FIRST_TAG_INDEX <= tag_index <= MAILBOX_WORDS - 3,
        ensures
            r == tag_result(self@, tag_index as int),
    {
        match self.response_status() {
            Err(e) => Err(e),
            Ok(()) => {
                if self.words[tag_index + 2] & CODE_RESPONSE == 0 {
                    Err(Error::TagRejected)
                } else {
                    Ok(())
                }
            },
        }
    }
}

/// The outcome a whole-buffer code word stands for.
pub open spec fn status_result(code: u32) -> Result<(), Error> {
    if code == CODE_RESPONSE {
        Ok(())
    } else if code == CODE_RESPONSE_ERROR {
        Err(Error::FirmwareRejected)
    } else if code == CODE_REQUEST {
        Err(Error::NoResponse)
    } else {
        Err(Error::UnknownResponseStatus)
    }
}

/// Whether the payload of the tag starting at `tag_index` can be trusted:
/// the buffer was answered, and the tag's own code word has its response bit.
pub open spec fn tag_result(words: Seq<u32>, tag_index: int) -> Result<(), Error> {
    match status_result(words[1]) {
        Err(e) => Err(e),
        Ok(()) => if words[tag_index + 2] & CODE_RESPONSE == 0 {
            Err(Error::TagRejected)
        } else {
            Ok(())
        },
    }
}

/// A fresh buffer holding the single request tag `tag`, its size declared.
pub open spec fn single_tag_request(tag: Seq<u32>) -> Seq<u32> {
    seq![(HEADER_BYTES + 4 * tag.len()) as u32, CODE_REQUEST] + tag + Seq::new(
        (MAILBOX_WORDS - FIRST_TAG_INDEX - tag.len()) as nat,
        |i: int| 0u32,
    )
}

/// A fresh buffer holding one request for property `id` with `value_words` words of value.
fn single_tag_buffer(id: TagId, value_words: usize) -> (r: Mailbox)
    requires
        value_words + 4 < MAILBOX_WORDS - FIRST_TAG_INDEX,
    ensures
        r@ == single_tag_request(request_tag(id.spec_value(), value_words as nat)),
{
    let mut mbox = Mailbox::new();
    let tag = Tag::new(id, value_words);
    let ghost fresh = mbox@;
    assert(tags_end(fresh) == FIRST_TAG_INDEX);
    let _ = mbox.write_tag(tag.slice());
    assert(mbox@ =~= single_tag_request(tag@));
    mbox
}

/// Index of the value area of a buffer's first tag.
pub const FIRST_VALUE_INDEX: usize = 5;

/// The request for the firmware revision: one tag with a 4-byte value area.
pub fn firmware_revision_request() -> (r: Mailbox)
    ensures
        r@ == single_tag_request(request_tag(TagId::VideoCoreGetFirmwareVersion.spec_value(), 1)),
{
    single_tag_buffer(TagId::VideoCoreGetFirmwareVersion, 1)
}

/// The firmware revision read back from an answered firmware revision request.
pub fn get_firmware_revision(mbox: &Mailbox) -> (r: Result<u32, Error>)
    ensures
        tag_result(mbox@, FIRST_TAG_INDEX as int) is Ok ==> r == Ok::<u32, Error>(
            mbox@[FIRST_VALUE_INDEX as int],
        ),
        tag_result(mbox@, FIRST_TAG_INDEX as int) is Err ==> r == Err::<u32, Error>(
            tag_result(mbox@, FIRST_TAG_INDEX as int)->Err_0,
        ),
{
    match mbox.tag_answer(FIRST_TAG_INDEX) {
        Err(e) => Err(e),
        Ok(()) => Ok(mbox.words[FIRST_VALUE_INDEX]),
    }
}

/// The 64-bit value whose low and high halves are `low` and `high`.
pub open spec fn join_halves(low: u32, high: u32) -> u64 {
    (high * 0x1_0000_0000 + low) as u64
}

/// The request for the board serial: one tag with an 8-byte value area.
pub fn board_serial_request() -> (r: Mailbox)
    ensures
        r@ == single_tag_request(request_tag(TagId::HardwareGetBoardSerial.spec_value(), 2)),
{
    single_tag_buffer(TagId::HardwareGetBoardSerial, 2)
}

/// The board serial read back from an answered board serial request: the
/// first value word holds its low half, the second its high half.
pub fn get_board_serial(mbox: &Mailbox) -> (r: Result<u64, Error>)
    ensures
        tag_result(mbox@, FIRST_TAG_INDEX as int) is Ok ==> r == Ok::<u64, Error>(
            join_halves(mbox@[FIRST_VALUE_INDEX as int], mbox@[FIRST_VALUE_INDEX + 1]),
        ),
        tag_result(mbox@, FIRST_TAG_INDEX as int) is Err ==> r == Err::<u64, Error>(
            tag_result(mbox@, FIRST_TAG_INDEX as int)->Err_0,
        ),
{
    match mbox.tag_answer(FIRST_TAG_INDEX) {
        Err(e) => Err(e),
        Ok(()) => {
            let low = mbox.words[FIRST_VALUE_INDEX];
            let high = mbox.words[FIRST_VALUE_INDEX + 1];
            let serial = (high as u64) << 32u64 | low as u64;
            assert(serial == (high * 0x1_0000_0000 + low) as u64) by (bit_vector)
                requires
                    serial == (high as u64) << 32u64 | low as u64,
            ;
            Ok(serial)
        },
    }
}

/// Where an exchange with the firmware stands.
#[derive(Debug, Clone, Copy, PartialEq, Eq, Structural)]
pub enum CallPhase {
    /// Waiting for room in the outgoing mailbox.
    AwaitingSpace,
    /// There is room: the request word is to be written.
    Submitting,
    /// Waiting for a word in the incoming mailbox.
    AwaitingResponse,
    /// A word is waiting in the incoming mailbox: it is to be read.
    ReadingResponse,
    /// The word answering this request has arrived.
    Answered,
    /// The poll budget ran out first.
    TimedOut,
}

/// What the caller observed after carrying out the last action.
#[derive(Debug, Clone, Copy, PartialEq, Eq, Structural)]
pub enum CallEvent {
    /// The status register held this value.
    Status(u32),
    /// The request word was written.
    Written,
    /// This word was read from the read/write register.
    Received(u32),
}

/// What the caller is to do next on the mailbox hardware.
#[derive(Debug, Clone, Copy, PartialEq, Eq, Structural)]
pub enum CallAction {
    /// Read the status register and report it.
    ReadStatus,
    /// Write this word to the write register.
    Write(u32),
    /// Read the read/write register and report the word.
    ReadResponse,
    /// Stop: the call is answered or has timed out.
    Finished,
}

/// Whether a word read from the mailbox carries `address` in its high 28
/// bits and `channel` in its low 4 bits.
pub open spec fn matches_request(word: u32, address: u32, channel: u32) -> bool {
    (word & 0xfu32) == channel && (word & !0xfu32) == address
}

/// Phase and budget after an observation that brought no progress.
pub open spec fn spend_poll(phase: CallPhase, polls_left: u32) -> (CallPhase, u32) {
    if polls_left == 0 {
        (CallPhase::TimedOut, 0u32)
    } else {
        (phase, (polls_left - 1) as u32)
    }
}

/// Phase and remaining poll budget of a call on `address` and `channel`
/// after `event`. An event that does not belong to the phase changes nothing.
pub open spec fn advance(
    phase: CallPhase,
    polls_left: u32,
    address: u32,
    channel: u32,
    event: CallEvent,
) -> (CallPhase, u32) {
    match phase {
        CallPhase::AwaitingSpace => match event {
            CallEvent::Status(s) => if s & STATUS_FULL == 0 {
                (CallPhase::Submitting, polls_left)
            } else {
                spend_poll(CallPhase::AwaitingSpace, polls_left)
            },
            _ => (phase, polls_left),
        },
        CallPhase::Submitting => match event {
            CallEvent::Written => (CallPhase::AwaitingResponse, polls_left),
            _ => (phase, polls_left),
        },
        CallPhase::AwaitingResponse => match event {
            CallEvent::Status(s) => if s & STATUS_EMPTY == 0 {
                (CallPhase::ReadingResponse, polls_left)
            } else {
                spend_poll(CallPhase::AwaitingResponse, polls_left)
            },
            _ => (phase, polls_left),
        },
        CallPhase::ReadingResponse => match event {
            CallEvent::Received(w) => if matches_request(w, address, channel) {
                (CallPhase::Answered, polls_left)
            } else {
                spend_poll(CallPhase::AwaitingResponse, polls_left)
            },
            _ => (phase, polls_left),
        },
        _ => (phase, polls_left),
    }
}

/// A call becomes answered only by reading the very word that submitted it,
/// its buffer address with its channel in the low four bits; a word read for
/// another buffer or another channel leaves it unanswered.
pub proof fn lemma_answered_only_by_own_word(
    phase: CallPhase,
    polls_left: u32,
    address: u32,
    channel: u32,
    event: CallEvent,
)
    requires
        address & 0xfu32 == 0,
        channel < 16,
        phase != CallPhase::Answered,
    ensures
        advance(phase, polls_left, address, channel, event).0 == CallPhase::Answered
            <==> phase == CallPhase::ReadingResponse && event == CallEvent::Received(address | channel),
{
    if let CallEvent::Received(w) = event {
        assert(matches_request(w, address, channel) <==> w == address | channel) by (bit_vector)
            requires
                address & 0xfu32 == 0,
                channel < 16,
        ;
    }
}

/// Phase and remaining poll budget of a call on `address` and `channel`
/// after each of `events` in turn.
pub open spec fn advance_all(
    phase: CallPhase,
    polls_left: u32,
    address: u32,
    channel: u32,
    events: Seq<CallEvent>,
) -> (CallPhase, u32)
    decreases events.len(),
{
    if events.len() == 0 {
        (phase, polls_left)
    } else {
        let before = advance_all(phase, polls_left, address, channel, events.drop_last());
        advance(before.0, before.1, address, channel, events.last())
    }
}

/// However the words read from the mailbox interleave, a call that has not
/// been answered stays unanswered through any run of events in which its own
/// word, its buffer address with its channel in the low four bits, is never
/// read: every word for another buffer or another channel is skipped.
pub proof fn lemma_foreign_words_never_answer(
    phase: CallPhase,
    polls_left: u32,
    address: u32,
    channel: u32,
    events: Seq<CallEvent>,
)
    requires
        address & 0xfu32 == 0,
        channel < 16,
        phase != CallPhase::Answered,
        forall|j: int| 0 <= j < events.len() ==> #[trigger] events[j] != CallEvent::Received(address | channel),
    ensures
        advance_all(phase, polls_left, address, channel, events).0 != CallPhase::Answered,
    decreases events.len(),
{
    if events.len() > 0 {
        let prev = events.drop_last();
        assert forall|j: int| 0 <= j < prev.len() implies #[trigger] prev[j] != CallEvent::Received(address | channel) by {
            assert(prev[j] == events[j]);
        }
        lemma_foreign_words_never_answer(phase, polls_left, address, channel, prev);
        let before = advance_all(phase, polls_left, address, channel, prev);
        assert(events.last() == events[events.len() - 1]);
        lemma_answered_only_by_own_word(before.0, before.1, address, channel, events.last());
    }
}

/// The action that a call in `phase` asks for.
pub open spec fn action_for(phase: CallPhase, address: u32, channel: u32) -> CallAction {
    match phase {
        CallPhase::AwaitingSpace => CallAction::ReadStatus,
        CallPhase::Submitting => CallAction::Write(address | channel),
        CallPhase::AwaitingResponse => CallAction::ReadStatus,
        CallPhase::ReadingResponse => CallAction::ReadResponse,
        _ => CallAction::Finished,
    }
}

/// One request in flight on the mailbox: submit the buffer's address on a
/// channel, then wait for the word that carries the same address and channel,
/// skipping words meant for other requests. Each poll that finds the mailbox
/// busy or silent, and each foreign word, spends one unit of the poll budget;
/// the call times out when none is left.
pub struct MailboxCall {
    address: u32,
    channel: Channel,
    phase: CallPhase,
    polls_left: u32,
}

impl MailboxCall {
    #[verifier::type_invariant]
    spec fn aligned(self) -> bool {
        self.address & 0xfu32 == 0
    }

    /// Physical address of the buffer submitted.
    pub closed spec fn address(&self) -> u32 {
        self.address
    }

    /// Number of the channel the buffer is submitted on.
    pub closed spec fn channel_number(&self) -> u32 {
        self.channel.spec_number()
    }

    pub closed spec fn spec_phase(&self) -> CallPhase {
        self.phase
    }

    /// Polls that may still find nothing before the call times out.
    pub closed spec fn polls_left(&self) -> u32 {
        self.polls_left
    }

    /// A call submitting the buffer at `address`, which must be 16-byte aligned
    /// since its low four bits carry the channel, on `channel`.
    pub fn new(address: u32, channel: Channel, poll_budget: u32) -> (r: MailboxCall)
        requires
            address & 0xfu32 == 0,
        ensures
            r.address() == address,
            r.channel_number() == channel.spec_number(),
            r.spec_phase() == CallPhase::AwaitingSpace,
            r.polls_left() == poll_budget,
    {
        MailboxCall { address, channel, phase: CallPhase::AwaitingSpace, polls_left: poll_budget }
    }

    /// The call's current phase.
    #[verifier::when_used_as_spec(spec_phase)]
    pub fn phase(&self) -> (r: CallPhase)
        ensures
            r == self.spec_phase(),
    {
        self.phase
    }

    /// Whether `word`, read from the mailbox, answers this call.
    pub fn response_matches(&self, word: u32) -> (r: bool)
        ensures
            r == matches_request(word, self.address(), self.channel_number()),
    {
        let channel = self.channel.number();
        (word & 0xf) == channel && (word & !0xf) == self.address
    }

    /// The action the call asks for now.
    pub fn action(&self) -> (r: CallAction)
        ensures
            r == action_for(self.spec_phase(), self.address(), self.channel_number()),
    {
        match self.phase {
            CallPhase::AwaitingSpace => CallAction::ReadStatus,
            CallPhase::Submitting => CallAction::Write(self.address | self.channel.number()),
            CallPhase::AwaitingResponse => CallAction::ReadStatus,
            CallPhase::ReadingResponse => CallAction::ReadResponse,
            _ => CallAction::Finished,
        }
    }

    fn spend_poll(&mut self, phase: CallPhase)
        ensures
            (final(self).spec_phase(), final(self).polls_left()) == spend_poll(phase, old(self).polls_left()),
            final(self).address() == old(self).address(),
            final(self).channel_number() == old(self).channel_number(),
    {
        proof {
            use_type_invariant(&*self);
        }
        if self.polls_left == 0 {
            self.phase = CallPhase::TimedOut;
        } else {
            self.phase = phase;
            self.polls_left = self.polls_left - 1;
        }
    }

    /// Takes in what the caller observed after the last action, and returns
    /// the next action.
    pub fn step(&mut self, event: CallEvent) -> (r: CallAction)
        ensures
            final(self).address() == old(self).address(),
            final(self).channel_number() == old(self).channel_number(),
            (final(self).spec_phase(), final(self).polls_left()) == advance(
                old(self).spec_phase(),
                old(self).polls_left(),
                old(self).address(),
                old(self).channel_number(),
                event,
            ),
            r == action_for(final(self).spec_phase(), final(self).address(), final(self).channel_number()),
    {
        proof {
            use_type_invariant(&*self);
        }
        match (self.phase, event) {
            (CallPhase::AwaitingSpace, CallEvent::Status(s)) => {
                if s & STATUS_FULL == 0 {
                    self.phase = CallPhase::Submitting;
                } else {
                    self.spend_poll(CallPhase::AwaitingSpace);
                }
            },
            (CallPhase::Submitting, CallEvent::Written) => {
                self.phase = CallPhase::AwaitingResponse;
            },
            (CallPhase::AwaitingResponse, CallEvent::Status(s)) => {
                if s & STATUS_EMPTY == 0 {
                    self.phase = CallPhase::ReadingResponse;
                } else {
                    self.spend_poll(CallPhase::AwaitingResponse);
                }
            },
            (CallPhase::ReadingResponse, CallEvent::Received(w)) => {
                if self.response_matches(w) {
                    self.phase = CallPhase::Answered;
                } else {
                    self.spend_poll(CallPhase::AwaitingResponse);
                }
            },
            _ => {},
        }
        self.action()
    }
}

} // verus!
