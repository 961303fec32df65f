use kernel::error::Error;
use kernel::mailbox::{
    board_serial_request, firmware_revision_request, get_board_serial, get_firmware_revision,
    CallAction, CallEvent, CallPhase, Channel, Mailbox, MailboxCall, MailboxRegisters, Tag, TagId,
    CODE_RESPONSE, CODE_RESPONSE_ERROR, MAILBOX_WORDS,
};

const BUFFER_ADDRESS: u32 = 0x0008_1230;

/// Plays the firmware: stamps the buffer answered and fills in the first tag.
fn answer(mbox: &Mailbox, buffer_code: u32, tag_code: u32, values: &[u32]) -> Mailbox {
    let mut words = mbox.words();
    words[1] = buffer_code;
    words[4] = tag_code;
    for (i, v) in values.iter().enumerate() {
        words[5 + i] = *v;
    }
    Mailbox::from_words(words)
}

#[test]
fn fresh_buffer_declares_header_only() {
    let mbox = Mailbox::new();
    let words = mbox.words();
    assert_eq!(mbox.read_size(), 8);
    assert_eq!(mbox.read_request_code(), 0);
    assert!(words[1..].iter().all(|w| *w == 0));
}

#[test]
fn tag_layout_is_id_size_code_values_terminator() {
    let tag = Tag::new(TagId::VideoCoreGetFirmwareVersion, 1);
    assert_eq!(tag.slice(), &[0x1, 0x4, 0, 0, 0]);
    let tag = Tag::new(TagId::HardwareGetBoardSerial, 2);
    assert_eq!(tag.slice(), &[0x10004, 0x8, 0, 0, 0, 0]);
}

#[test]
fn tag_ids_match_the_firmware_interface() {
    assert_eq!(TagId::VideoCoreGetFirmwareVersion.value(), 0x1);
    assert_eq!(TagId::HardwareGetBoardModel.value(), 0x10001);
    assert_eq!(TagId::HardwareGetBoardSerial.value(), 0x10004);
    assert_eq!(TagId::HardwareGetArmMemory.value(), 0x10005);
    assert_eq!(TagId::ClocksGetClockRate.value(), 0x30002);
    assert_eq!(TagId::ClocksSetClockRate.value(), 0x38002);
    assert_eq!(TagId::FramebufferAllocateBuffer.value(), 0x40001);
    assert_eq!(TagId::FramebufferGetPhysicalWidthHeight.value(), 0x40003);
    assert_eq!(TagId::FramebufferSetVirtualWidthHeight.value(), 0x48004);
    assert_eq!(TagId::FramebufferGetDepth.value(), 0x40005);
    assert_eq!(TagId::FramebufferSetDepth.value(), 0x48005);
    assert_eq!(TagId::FramebufferGetPixelOrder.value(), 0x40006);
    assert_eq!(TagId::FramebufferSetPixelOrder.value(), 0x48006);
}

#[test]
fn channel_numbers_match_the_hardware() {
    assert_eq!(Channel::PowerManagement.number(), 0);
    assert_eq!(Channel::Framebuffer.number(), 1);
    assert_eq!(Channel::Led.number(), 4);
    assert_eq!(Channel::Count.number(), 7);
    assert_eq!(Channel::PropertyTags.number(), 8);
}

#[test]
fn register_addresses_sit_at_fixed_offsets() {
    let regs = MailboxRegisters::new(0x3f00_0000);
    assert_eq!(regs.read_write().get(), 0x3f00_b880);
    assert_eq!(regs.peek().get(), 0x3f00_b890);
    assert_eq!(regs.sender().get(), 0x3f00_b894);
    assert_eq!(regs.status().get(), 0x3f00_b898);
    assert_eq!(regs.config().get(), 0x3f00_b89c);
    assert_eq!(regs.write().get(), 0x3f00_b8a0);
}

#[test]
fn sizes_add_up_over_several_tags() {
    let mut mbox = Mailbox::new();
    let first = [0x1u32, 4, 0, 7, 0];
    assert_eq!(mbox.write_tag(&first), Ok(2));
    assert_eq!(mbox.read_size(), 8 + 5 * 4);
    // The next tag starts on the first one's closing zero, past its value word.
    let second = [0x10004u32, 8, 0, 6, 9, 0];
    assert_eq!(mbox.write_tag(&second), Ok(6));
    assert_eq!(mbox.read_size(), 8 + 5 * 4 + 6 * 4);
    let words = mbox.words();
    assert_eq!(&words[2..6], &[0x1, 4, 0, 7]);
    assert_eq!(&words[6..12], &second);
    assert!(words[11..].iter().all(|w| *w == 0));
}

#[test]
fn request_tags_follow_each_other() {
    let mut mbox = Mailbox::new();
    let revision = Tag::new(TagId::VideoCoreGetFirmwareVersion, 1);
    let serial = Tag::new(TagId::HardwareGetBoardSerial, 2);
    let model = Tag::new(TagId::HardwareGetBoardModel, 1);
    assert_eq!(mbox.write_tag(revision.slice()), Ok(2));
    assert_eq!(mbox.write_tag(serial.slice()), Ok(6));
    assert_eq!(mbox.write_tag(model.slice()), Ok(11));
    assert_eq!(mbox.read_size(), 8 + (5 + 6 + 5) * 4);
    let words = mbox.words();
    assert_eq!(&words[2..6], &[0x1, 4, 0, 0]);
    assert_eq!(&words[6..11], &[0x10004, 8, 0, 0, 0]);
    assert_eq!(&words[11..16], &[0x10001, 4, 0, 0, 0]);
    assert!(words[16..].iter().all(|w| *w == 0));
}

#[test]
fn tag_that_cannot_follow_the_first_is_refused() {
    let mut mbox = Mailbox::new();
    let revision = Tag::new(TagId::VideoCoreGetFirmwareVersion, 1);
    assert_eq!(mbox.write_tag(revision.slice()), Ok(2));
    let before = mbox.words();
    // 30 words from word 6 would leave no word for the terminator.
    let big = Tag::new(TagId::HardwareGetBoardSerial, 26);
    assert_eq!(big.slice().len(), 30);
    assert_eq!(mbox.write_tag(big.slice()), Err(Error::BufferFull));
    assert_eq!(mbox.words(), before);
    let fits = Tag::new(TagId::HardwareGetBoardSerial, 25);
    assert_eq!(mbox.write_tag(fits.slice()), Ok(6));
    assert_eq!(mbox.words()[35], 0);
}

#[test]
fn tag_filling_all_but_the_last_word_fits() {
    let mut mbox = Mailbox::new();
    let tag = [1u32; 33];
    assert_eq!(mbox.write_tag(&tag), Ok(2));
    assert_eq!(mbox.read_size(), 8 + 33 * 4);
    assert_eq!(mbox.words()[35], 0);
}

#[test]
fn tag_leaving_no_room_for_terminator_is_refused() {
    let mut mbox = Mailbox::new();
    let tag = [1u32; 34];
    let before = mbox.words();
    assert_eq!(mbox.write_tag(&tag), Err(Error::BufferFull));
    assert_eq!(mbox.words(), before);
}

#[test]
fn full_buffer_refuses_and_stays_unchanged() {
    let mut mbox = Mailbox::new();
    let long = Tag::new(TagId::VideoCoreGetFirmwareVersion, 25);
    assert_eq!(mbox.write_tag(long.slice()), Ok(2));
    let before = mbox.words();
    assert_eq!(mbox.write_tag(&[3u32, 8, 0, 0, 0, 0]), Err(Error::BufferFull));
    assert_eq!(mbox.words(), before);
    assert_eq!(mbox.write_tag(&[3u32, 4, 0, 0, 0]), Ok(30));
    assert_eq!(mbox.read_size(), 8 + 29 * 4 + 5 * 4);
}

#[test]
fn tags_running_past_the_buffer_leave_no_room() {
    let mut words = [0u32; 36];
    words[0] = 8;
    words[2] = 0x1;
    words[3] = 0x1000;
    let mut mbox = Mailbox::from_words(words);
    assert_eq!(mbox.write_tag(&[0x1u32, 4, 0, 0, 0]), Err(Error::BufferFull));
    assert_eq!(mbox.words(), words);
}

#[test]
fn declared_size_wraps_around() {
    let mut words = [0u32; 36];
    words[0] = 0xffff_fffc;
    let mut mbox = Mailbox::from_words(words);
    assert_eq!(mbox.write_tag(&[5u32, 0]), Ok(2));
    assert_eq!(mbox.read_size(), 4);
}

#[test]
fn whole_buffer_code_classification() {
    let mut words = [0u32; 36];
    words[1] = 0x8000_0001;
    assert_eq!(Mailbox::from_words(words).response_status(), Err(Error::FirmwareRejected));
    words[1] = 0x8000_0000;
    assert_eq!(Mailbox::from_words(words).response_status(), Ok(()));
    words[1] = 0;
    assert_eq!(Mailbox::from_words(words).response_status(), Err(Error::NoResponse));
    words[1] = 0x1234;
    assert_eq!(Mailbox::from_words(words).response_status(), Err(Error::UnknownResponseStatus));
}

#[test]
fn firmware_revision_scenario() {
    let mut mbox = Mailbox::new();
    assert_eq!(mbox.read_size(), 8);
    assert_eq!(mbox.write_tag(&[0x1, 0x4, 0, 0, 0]), Ok(2));
    assert_eq!(mbox.read_size(), 28);
    assert_eq!(mbox.words(), firmware_revision_request().words());
    let answered = answer(&mbox, CODE_RESPONSE, 0x8000_0004, &[0x0002_0000]);
    assert_eq!(get_firmware_revision(&answered), Ok(0x0002_0000));
}

#[test]
fn board_serial_scenario() {
    let mbox = board_serial_request();
    assert_eq!(mbox.read_size(), 8 + 6 * 4);
    assert_eq!(&mbox.words()[2..8], &[0x10004, 8, 0, 0, 0, 0]);
    let low = 0x89ab_cdef_u32;
    let high = 0x0123_4567_u32;
    let answered = answer(&mbox, CODE_RESPONSE, 0x8000_0008, &[low, high]);
    assert_eq!(get_board_serial(&answered), Ok(((high as u64) << 32) | low as u64));
    assert_eq!(get_board_serial(&answered), Ok(0x0123_4567_89ab_cdef));
}

#[test]
fn unanswered_tag_is_not_trusted() {
    let mbox = firmware_revision_request();
    let answered = answer(&mbox, CODE_RESPONSE, 0, &[0x0002_0000]);
    assert_eq!(get_firmware_revision(&answered), Err(Error::TagRejected));
}

#[test]
fn rejected_or_unanswered_buffer_gives_no_value() {
    let mbox = board_serial_request();
    let rejected = answer(&mbox, CODE_RESPONSE_ERROR, 0x8000_0008, &[1, 2]);
    assert_eq!(get_board_serial(&rejected), Err(Error::FirmwareRejected));
    assert_eq!(get_board_serial(&mbox), Err(Error::NoResponse));
    let strange = answer(&mbox, 0x4000_0000, 0x8000_0008, &[1, 2]);
    assert_eq!(get_board_serial(&strange), Err(Error::UnknownResponseStatus));
}

#[test]
fn call_submits_address_with_channel() {
    let mut call = MailboxCall::new(BUFFER_ADDRESS, Channel::PropertyTags, 8);
    assert_eq!(call.action(), CallAction::ReadStatus);
    // Outgoing mailbox full: poll again.
    assert_eq!(call.step(CallEvent::Status(0x8000_0000)), CallAction::ReadStatus);
    assert_eq!(call.step(CallEvent::Status(0)), CallAction::Write(BUFFER_ADDRESS | 8));
    assert_eq!(call.step(CallEvent::Written), CallAction::ReadStatus);
    // Incoming mailbox empty: poll again.
    assert_eq!(call.step(CallEvent::Status(0x4000_0000)), CallAction::ReadStatus);
    assert_eq!(call.step(CallEvent::Status(0)), CallAction::ReadResponse);
    assert_eq!(call.step(CallEvent::Received(BUFFER_ADDRESS | 8)), CallAction::Finished);
    assert_eq!(call.phase(), CallPhase::Answered);
}

#[test]
fn foreign_responses_are_skipped() {
    let mut call = MailboxCall::new(BUFFER_ADDRESS, Channel::PropertyTags, 8);
    call.step(CallEvent::Status(0));
    call.step(CallEvent::Written);
    assert_eq!(call.step(CallEvent::Status(0)), CallAction::ReadResponse);
    // Same buffer, another channel.
    assert!(!call.response_matches(BUFFER_ADDRESS | 1));
    assert_eq!(call.step(CallEvent::Received(BUFFER_ADDRESS | 1)), CallAction::ReadStatus);
    assert_eq!(call.phase(), CallPhase::AwaitingResponse);
    assert_eq!(call.step(CallEvent::Status(0)), CallAction::ReadResponse);
    // Same channel, another buffer.
    assert_eq!(call.step(CallEvent::Received(0x0009_0008)), CallAction::ReadStatus);
    assert_eq!(call.phase(), CallPhase::AwaitingResponse);
    assert_eq!(call.step(CallEvent::Status(0)), CallAction::ReadResponse);
    assert!(call.response_matches(BUFFER_ADDRESS | 8));
    assert_eq!(call.step(CallEvent::Received(BUFFER_ADDRESS | 8)), CallAction::Finished);
    assert_eq!(call.phase(), CallPhase::Answered);
}

#[test]
fn two_foreign_replies_then_the_own_one() {
    let mut call = MailboxCall::new(BUFFER_ADDRESS, Channel::PropertyTags, 8);
    assert_eq!(call.step(CallEvent::Status(0)), CallAction::Write(BUFFER_ADDRESS | 8));
    assert_eq!(call.step(CallEvent::Written), CallAction::ReadStatus);
    assert_eq!(call.step(CallEvent::Status(0)), CallAction::ReadResponse);
    // Another buffer on the same channel.
    assert_eq!(call.step(CallEvent::Received((BUFFER_ADDRESS + 0x10) | 8)), CallAction::ReadStatus);
    assert_eq!(call.step(CallEvent::Status(0)), CallAction::ReadResponse);
    // The same buffer on another channel.
    assert_eq!(call.step(CallEvent::Received(BUFFER_ADDRESS | 1)), CallAction::ReadStatus);
    assert_eq!(call.step(CallEvent::Status(0)), CallAction::ReadResponse);
    assert_eq!(call.step(CallEvent::Received(BUFFER_ADDRESS | 8)), CallAction::Finished);
    assert_eq!(call.phase(), CallPhase::Answered);
    let mut words = firmware_revision_request().words();
    words[1] = CODE_RESPONSE;
    assert_eq!(Mailbox::from_words(words).response_status(), Ok(()));
}

#[test]
fn silent_mailbox_times_out() {
    let mut call = MailboxCall::new(BUFFER_ADDRESS, Channel::PropertyTags, 2);
    assert_eq!(call.step(CallEvent::Status(0x8000_0000)), CallAction::ReadStatus);
    assert_eq!(call.step(CallEvent::Status(0x8000_0000)), CallAction::ReadStatus);
    assert_eq!(call.step(CallEvent::Status(0x8000_0000)), CallAction::Finished);
    assert_eq!(call.phase(), CallPhase::TimedOut);
}

#[test]
fn foreign_words_spend_the_budget() {
    let mut call = MailboxCall::new(BUFFER_ADDRESS, Channel::PropertyTags, 0);
    call.step(CallEvent::Status(0));
    call.step(CallEvent::Written);
    call.step(CallEvent::Status(0));
    assert_eq!(call.step(CallEvent::Received(BUFFER_ADDRESS | 2)), CallAction::Finished);
    assert_eq!(call.phase(), CallPhase::TimedOut);
}

#[test]
fn events_out_of_turn_change_nothing() {
    let mut call = MailboxCall::new(BUFFER_ADDRESS, Channel::PropertyTags, 3);
    assert_eq!(call.step(CallEvent::Received(BUFFER_ADDRESS | 8)), CallAction::ReadStatus);
    assert_eq!(call.phase(), CallPhase::AwaitingSpace);
    assert_eq!(call.step(CallEvent::Written), CallAction::ReadStatus);
    assert_eq!(call.phase(), CallPhase::AwaitingSpace);
}
