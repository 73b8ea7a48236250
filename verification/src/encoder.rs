//! The encoder: a finished recording as a mono 16-bit PCM WAVE container.
//!
//! The container is written by the `hound` crate into memory; putting the
//! bytes at a file location is left to the caller.

use vstd::prelude::*;
use vstd::string::StringExecFns;
use crate::error::CaptureError;

verus! {

/// Sample rate written to a recording whose session never learned one.
pub const FALLBACK_SAMPLE_RATE: u32 = 44_100;

/// Channel count of every container written here.
pub const CONTAINER_CHANNELS: u16 = 1;

/// Bits per sample of every container written here.
pub const CONTAINER_BITS: u16 = 16;

/// Length of the container's header in bytes.
pub const HEADER_LEN: usize = 44;

/// The largest sample rate whose byte rate still fits the header's 32-bit field.
pub const MAX_SAMPLE_RATE: u32 = 0x7fff_ffff;

/// The largest number of samples whose byte count, with the header's 36
/// bytes behind the size field, still fits the header's 32-bit fields.
pub const MAX_SAMPLE_COUNT: usize = 2_147_483_629;

/// The samples of a stopped recording with the rate they are to be encoded at.
#[derive(Debug)]
pub struct FinishedRecording {
    pub samples: Vec<i16>,
    pub sample_rate: u32,
}

/// The rate a recording is encoded at: the one given, or the fallback where
/// that is zero.
pub open spec fn effective_sample_rate(sample_rate: u32) -> u32 {
    if sample_rate == 0 { FALLBACK_SAMPLE_RATE } else { sample_rate }
}

/// Byte `index` of `value` in little-endian order.
pub open spec fn le_byte(value: int, index: int) -> u8 {
    if index == 0 {
        (value % 256) as u8
    } else if index == 1 {
        ((value / 0x100) % 256) as u8
    } else if index == 2 {
        ((value / 0x1_0000) % 256) as u8
    } else {
        ((value / 0x100_0000) % 256) as u8
    }
}

/// Byte `index` (0 or 1) of a sample: its two's complement, low byte first.
pub open spec fn sample_byte(sample: i16, index: int) -> u8 {
    le_byte(if sample < 0 { sample + 0x1_0000 } else { sample as int }, index)
}

/// The samples as data bytes, two per sample, in order.
pub open spec fn pcm_bytes(samples: Seq<i16>) -> Seq<u8> {
    Seq::new(2 * samples.len(), |i: int| sample_byte(samples[i / 2], i % 2))
}

/// The 44 header bytes of a mono 16-bit PCM container with `data_len` data
/// bytes: the RIFF chunk with the size of all that follows it, the WAVE
/// tag, a 16-byte `fmt ` chunk (PCM, one channel, the sample rate, two bytes
/// per second of each sample, block alignment two, sixteen bits), and the
/// `data` chunk header.
pub open spec fn wav_header(sample_rate: u32, data_len: int) -> Seq<u8> {
    let riff_len = data_len + 36;
    let rate = sample_rate as int;
    let byte_rate = 2 * sample_rate;
    seq![
        0x52u8, 0x49u8, 0x46u8, 0x46u8,
        le_byte(riff_len, 0), le_byte(riff_len, 1), le_byte(riff_len, 2), le_byte(riff_len, 3),
        0x57u8, 0x41u8, 0x56u8, 0x45u8,
        0x66u8, 0x6du8, 0x74u8, 0x20u8,
        16u8, 0u8, 0u8, 0u8,
        1u8, 0u8,
        1u8, 0u8,
        le_byte(rate, 0), le_byte(rate, 1), le_byte(rate, 2), le_byte(rate, 3),
        le_byte(byte_rate, 0), le_byte(byte_rate, 1), le_byte(byte_rate, 2), le_byte(byte_rate, 3),
        2u8, 0u8,
        16u8, 0u8,
        0x64u8, 0x61u8, 0x74u8, 0x61u8,
        le_byte(data_len, 0), le_byte(data_len, 1), le_byte(data_len, 2), le_byte(data_len, 3),
    ]
}

/// The whole container: header, then data.
pub open spec fn wav_image(samples: Seq<i16>, sample_rate: u32) -> Seq<u8> {
    wav_header(sample_rate, 2 * (samples.len() as int)) + pcm_bytes(samples)
}

/// Whether a recording of `count` samples at `sample_rate` fits the
/// container's 32-bit size fields.
pub open spec fn fits_container(count: nat, sample_rate: u32) -> bool {
    count <= MAX_SAMPLE_COUNT && effective_sample_rate(sample_rate) <= MAX_SAMPLE_RATE
}

/// What is reported for a recording with too many samples.
pub open spec fn too_long_message() -> Seq<char> {
    "recording is too long for a WAVE container"@
}

/// What is reported for a sample rate beyond the container's reach.
pub open spec fn rate_too_high_message() -> Seq<char> {
    "sample rate is too high for a WAVE container"@
}

/// `hound::Error`, the container writer's error. It is carried through as
/// it comes; nothing is known of what it holds.
#[verifier::external_type_specification]
#[verifier::external_body]
pub struct ExHoundError(hound::Error);

/// `hound::WavWriter` over an in-memory cursor: `new`, one `write_sample`
/// per sample, `finalize`, and the cursor's bytes. The writer borrows the
/// cursor until it is finalized and gives no way to take it back, which is
/// why the calls stand together.
///
/// Trusted, of `hound`'s source: for an integer format of one channel and
/// sixteen bits the three calls fail only where the sink fails to take a
/// write or a seek, which a cursor over a vector in memory does not do, so
/// the outcome is `Ok`. The bytes are the 44-byte PCM header that `hound`
/// writes for an integer format of at most two channels and sixteen bits,
/// with both size fields filled in by `finalize`, followed by each sample
/// in little-endian order. The preconditions keep `hound` clear of its
/// unchecked arithmetic: it divides by the sample rate, multiplies it by
/// the bytes per frame, and counts data bytes in 32 bits.
#[verifier::external_body]
fn write_container(
    samples: &[i16],
    channels: u16,
    sample_rate: u32,
    bits_per_sample: u16,
) -> (outcome: Result<Vec<u8>, hound::Error>)
    requires
        channels == CONTAINER_CHANNELS,
        bits_per_sample == CONTAINER_BITS,
        0 < sample_rate <= MAX_SAMPLE_RATE,
        samples@.len() <= MAX_SAMPLE_COUNT,
    ensures
        outcome is Ok,
        outcome matches Ok(bytes) ==> bytes@ == wav_image(samples@, sample_rate),
{
    let spec = hound::WavSpec {
        channels,
        sample_rate,
        bits_per_sample,
        sample_format: hound::SampleFormat::Int,
    };
    let mut sink = std::io::Cursor::new(Vec::new());
    let mut writer = hound::WavWriter::new(&mut sink, spec)?;
    for sample in samples.iter() {
        writer.write_sample(*sample)?;
    }
    writer.finalize()?;
    Ok(sink.into_inner())
}

/// `hound::Error`'s `Display` text. Trusted to return; nothing is claimed
/// of the text.
#[verifier::external_body]
fn encoder_error_text(error: &hound::Error) -> (text: String) {
    error.to_string()
}

/// Turns what the container writer returned into the encoder's answer: the
/// bytes as they are, or an `EncodeError` that carries the writer's text.
pub fn finish_encoding(outcome: Result<Vec<u8>, hound::Error>) -> (encoded: Result<
    Vec<u8>,
    CaptureError,
>)
    ensures
        outcome matches Ok(bytes) ==> encoded == Ok::<Vec<u8>, CaptureError>(bytes),
        outcome is Err ==> (encoded matches Err(error) && error is EncodeError),
{
    match outcome {
        Ok(bytes) => Ok(bytes),
        Err(error) => Err(CaptureError::EncodeError(encoder_error_text(&error))),
    }
}

/// The rate a recording is encoded at.
pub fn sample_rate_or_fallback(sample_rate: u32) -> (rate: u32)
    ensures
        rate == effective_sample_rate(sample_rate),
        rate > 0,
{
    if sample_rate == 0 {
        FALLBACK_SAMPLE_RATE
    } else {
        sample_rate
    }
}

/// Holds a recording of `sample_count` samples against the container's
/// limits and answers with the rate it is to be encoded at.
pub fn container_rate(sample_count: usize, sample_rate: u32) -> (answer: Result<u32, CaptureError>)
    ensures
        fits_container(sample_count as nat, sample_rate) ==> answer == Ok::<u32, CaptureError>(
            effective_sample_rate(sample_rate),
        ),
        sample_count > MAX_SAMPLE_COUNT ==> (answer matches Err(CaptureError::EncodeError(detail))
            && detail@ == too_long_message()),
        sample_count <= MAX_SAMPLE_COUNT && effective_sample_rate(sample_rate) > MAX_SAMPLE_RATE
            ==> (answer matches Err(CaptureError::EncodeError(detail)) && detail@
            == rate_too_high_message()),
{
    let rate = sample_rate_or_fallback(sample_rate);
    if sample_count > MAX_SAMPLE_COUNT {
        Err(
            CaptureError::EncodeError(
                String::from_str("recording is too long for a WAVE container"),
            ),
        )
    } else if rate > MAX_SAMPLE_RATE {
        Err(
            CaptureError::EncodeError(
                String::from_str("sample rate is too high for a WAVE container"),
            ),
        )
    } else {
        Ok(rate)
    }
}

/// Encodes mono 16-bit samples as an uncompressed WAVE container. A sample
/// rate of zero is replaced by the fallback rate. An empty recording gives
/// a container of the header alone.
///
/// Succeeds exactly where the recording fits the container's 32-bit size
/// fields, and fails with `EncodeError` where it does not.
pub fn encode_wav(samples: &[i16], sample_rate: u32) -> (encoded: Result<Vec<u8>, CaptureError>)
    ensures
        fits_container(samples@.len(), sample_rate) <==> encoded is Ok,
        encoded matches Ok(bytes) ==> bytes@ == wav_image(
            samples@,
            effective_sample_rate(sample_rate),
        ),
        encoded matches Err(error) ==> error is EncodeError,
        samples@.len() > MAX_SAMPLE_COUNT ==> (encoded matches Err(
            CaptureError::EncodeError(detail),
        ) && detail@ == too_long_message()),
        samples@.len() <= MAX_SAMPLE_COUNT && effective_sample_rate(sample_rate) > MAX_SAMPLE_RATE
            ==> (encoded matches Err(CaptureError::EncodeError(detail)) && detail@
            == rate_too_high_message()),
{
    match container_rate(samples.len(), sample_rate) {
        Ok(rate) => finish_encoding(
            write_container(samples, CONTAINER_CHANNELS, rate, CONTAINER_BITS),
        ),
        Err(error) => Err(error),
    }
}

impl FinishedRecording {
    /// Encodes the recording; see [`encode_wav`].
    pub fn encode(&self) -> (encoded: Result<Vec<u8>, CaptureError>)
        ensures
            fits_container(self.samples@.len(), self.sample_rate) <==> encoded is Ok,
            encoded matches Ok(bytes) ==> bytes@ == wav_image(
                self.samples@,
                effective_sample_rate(self.sample_rate),
            ),
            encoded matches Err(error) ==> error is EncodeError,
            self.samples@.len() > MAX_SAMPLE_COUNT ==> (encoded matches Err(
                CaptureError::EncodeError(detail),
            ) && detail@ == too_long_message()),
            self.samples@.len() <= MAX_SAMPLE_COUNT && effective_sample_rate(self.sample_rate)
                > MAX_SAMPLE_RATE ==> (encoded matches Err(CaptureError::EncodeError(detail))
                && detail@ == rate_too_high_message()),
    {
        encode_wav(self.samples.as_slice(), self.sample_rate)
    }
}

/// The 16-bit little-endian number at offset `at`.
pub open spec fn le16_at(bytes: Seq<u8>, at: int) -> int {
    bytes[at] + 0x100 * bytes[at + 1]
}

/// The 32-bit little-endian number at offset `at`.
pub open spec fn le32_at(bytes: Seq<u8>, at: int) -> int {
    bytes[at] + 0x100 * bytes[at + 1] + 0x1_0000 * bytes[at + 2] + 0x100_0000 * bytes[at + 3]
}

/// The channel count a reader finds in a container's header.
pub open spec fn header_channels(bytes: Seq<u8>) -> int {
    le16_at(bytes, 22)
}

/// The sample rate a reader finds in a container's header.
pub open spec fn header_sample_rate(bytes: Seq<u8>) -> int {
    le32_at(bytes, 24)
}

/// The bits per sample a reader finds in a container's header.
pub open spec fn header_bits_per_sample(bytes: Seq<u8>) -> int {
    le16_at(bytes, 34)
}

/// The number of data bytes a reader finds in a container's header.
pub open spec fn header_data_len(bytes: Seq<u8>) -> int {
    le32_at(bytes, 40)
}

/// The number of samples a reader derives from a container's header: the
/// data bytes divided by the bytes of one sample.
pub open spec fn header_sample_count(bytes: Seq<u8>) -> int {
    header_data_len(bytes) / (header_bits_per_sample(bytes) / 8)
}

/// The sample a reader finds at position `index` of a container's data.
pub open spec fn decoded_sample(bytes: Seq<u8>, index: int) -> int {
    let raw = le16_at(bytes, HEADER_LEN + 2 * index);
    if raw >= 0x8000 { raw - 0x1_0000 } else { raw }
}

/// The four little-endian bytes of a 32-bit number give the number back.
proof fn lemma_le32_bytes(value: int)
    requires
        0 <= value < 0x1_0000_0000,
    ensures
        le_byte(value, 0) + 0x100 * le_byte(value, 1) + 0x1_0000 * le_byte(value, 2) + 0x100_0000
            * le_byte(value, 3) == value,
{
}

/// The two bytes of a sample give the sample back.
proof fn lemma_sample_bytes(sample: i16)
    ensures
        ({
            let raw = sample_byte(sample, 0) + 0x100 * sample_byte(sample, 1);
            (if raw >= 0x8000 { raw - 0x1_0000 } else { raw }) == sample
        }),
{
}

/// The fields of the header, where a reader looks for them.
proof fn lemma_header_fields(sample_rate: u32, data_len: int)
    requires
        0 <= data_len < 0x1_0000_0000,
    ensures
        wav_header(sample_rate, data_len).len() == HEADER_LEN,
        le16_at(wav_header(sample_rate, data_len), 22) == 1,
        le16_at(wav_header(sample_rate, data_len), 34) == 16,
        le32_at(wav_header(sample_rate, data_len), 24) == sample_rate,
        le32_at(wav_header(sample_rate, data_len), 40) == data_len,
{
    let header = wav_header(sample_rate, data_len);
    assert(header.len() == 44);
    assert(header[22] == 1u8 && header[23] == 0u8);
    assert(header[34] == 16u8 && header[35] == 0u8);
    assert(header[24] == le_byte(sample_rate as int, 0));
    assert(header[25] == le_byte(sample_rate as int, 1));
    assert(header[26] == le_byte(sample_rate as int, 2));
    assert(header[27] == le_byte(sample_rate as int, 3));
    assert(header[40] == le_byte(data_len, 0));
    assert(header[41] == le_byte(data_len, 1));
    assert(header[42] == le_byte(data_len, 2));
    assert(header[43] == le_byte(data_len, 3));
    lemma_le32_bytes(sample_rate as int);
    lemma_le32_bytes(data_len);
}

/// Round trip: the header of an encoded recording reads back as one
/// channel, sixteen bits per sample, the rate it was encoded at and as many
/// samples as were encoded, and every sample reads back as it was.
pub proof fn lemma_container_round_trip(samples: Seq<i16>, sample_rate: u32)
    requires
        samples.len() <= MAX_SAMPLE_COUNT,
    ensures
        wav_image(samples, sample_rate).len() == HEADER_LEN + 2 * samples.len(),
        header_channels(wav_image(samples, sample_rate)) == 1,
        header_bits_per_sample(wav_image(samples, sample_rate)) == 16,
        header_sample_rate(wav_image(samples, sample_rate)) == sample_rate,
        header_data_len(wav_image(samples, sample_rate)) == 2 * samples.len(),
        header_sample_count(wav_image(samples, sample_rate)) == samples.len(),
        forall|i: int|
            0 <= i < samples.len() ==> #[trigger] decoded_sample(
                wav_image(samples, sample_rate),
                i,
            ) == samples[i],
{
    let data_len = 2 * (samples.len() as int);
    let header = wav_header(sample_rate, data_len);
    let data = pcm_bytes(samples);
    let image = header + data;
    lemma_header_fields(sample_rate, data_len);
    assert(image == wav_image(samples, sample_rate));
    assert(image.len() == 44 + data_len);
    assert(header_bits_per_sample(image) / 8 == 2) by {
        assert(image[34] == header[34] && image[35] == header[35]);
        assert(le16_at(image, 34) == 16);
    }
    assert(header_data_len(image) == data_len) by {
        assert(image[40] == header[40] && image[41] == header[41] && image[42] == header[42]
            && image[43] == header[43]);
    }
    assert(data_len / 2 == samples.len()) by {
        assert(data_len == 2 * samples.len());
    }
    assert(header_sample_count(image) == samples.len());
    assert(image[22] == header[22] && image[23] == header[23]);
    assert(image[34] == header[34] && image[35] == header[35]);
    assert(image[24] == header[24] && image[25] == header[25] && image[26] == header[26]
        && image[27] == header[27]);
    assert(image[40] == header[40] && image[41] == header[41] && image[42] == header[42]
        && image[43] == header[43]);
    assert forall|i: int| 0 <= i < samples.len() implies #[trigger] decoded_sample(image, i)
        == samples[i] by {
        assert(image[44 + 2 * i] == data[2 * i]);
        assert(image[44 + 2 * i + 1] == data[2 * i + 1]);
        assert(data[2 * i] == sample_byte(samples[i], 0));
        assert(data[2 * i + 1] == sample_byte(samples[i], 1));
        lemma_sample_bytes(samples[i]);
    }
}

/// The image of an empty recording is the header alone, which reads back
/// as a container of zero samples.
pub proof fn lemma_empty_recording(sample_rate: u32)
    ensures
        wav_image(Seq::<i16>::empty(), sample_rate) == wav_header(sample_rate, 0),
        header_sample_count(wav_image(Seq::<i16>::empty(), sample_rate)) == 0,
{
    lemma_container_round_trip(Seq::<i16>::empty(), sample_rate);
    assert(wav_image(Seq::<i16>::empty(), sample_rate) =~= wav_header(sample_rate, 0));
}

/// The decimal digit of a number below ten.
pub open spec fn digit_char(digit: nat) -> char {
    if digit == 0 {
        '0'
    } else if digit == 1 {
        '1'
    } else if digit == 2 {
        '2'
    } else if digit == 3 {
        '3'
    } else if digit == 4 {
        '4'
    } else if digit == 5 {
        '5'
    } else if digit == 6 {
        '6'
    } else if digit == 7 {
        '7'
    } else if digit == 8 {
        '8'
    } else {
        '9'
    }
}

/// The decimal numeral of `value`, without leading zeros.
pub open spec fn decimal(value: nat) -> Seq<char>
    decreases value,
{
    if value < 10 {
        seq![digit_char(value)]
    } else {
        decimal(value / 10).push(digit_char(value % 10))
    }
}

/// The name of the file a recording finished at `timestamp_millis`
/// (milliseconds since the epoch) is written to.
pub open spec fn file_name(timestamp_millis: u128) -> Seq<char> {
    "event_searcher_recording_"@ + decimal(timestamp_millis as nat) + ".wav"@
}

fn digit_text(digit: u8) -> (text: &'static str)
    requires
        digit < 10,
    ensures
        text@ == seq![digit_char(digit as nat)],
{
    proof {
        reveal_strlit("0");
        reveal_strlit("1");
        reveal_strlit("2");
        reveal_strlit("3");
        reveal_strlit("4");
        reveal_strlit("5");
        reveal_strlit("6");
        reveal_strlit("7");
        reveal_strlit("8");
        reveal_strlit("9");
    }
    let text = if digit == 0 {
        "0"
    } else if digit == 1 {
        "1"
    } else if digit == 2 {
        "2"
    } else if digit == 3 {
        "3"
    } else if digit == 4 {
        "4"
    } else if digit == 5 {
        "5"
    } else if digit == 6 {
        "6"
    } else if digit == 7 {
        "7"
    } else if digit == 8 {
        "8"
    } else {
        "9"
    };
    assert(text@ =~= seq![digit_char(digit as nat)]);
    text
}

fn append_decimal(text: &mut String, value: u128)
    ensures
        final(text)@ == old(text)@ + decimal(value as nat),
    decreases value,
{
    if value >= 10 {
        append_decimal(text, value / 10);
    }
    text.append(digit_text((value % 10) as u8));
    assert(text@ =~= old(text)@ + decimal(value as nat));
}

/// Names the file for a recording finished at `timestamp_millis`.
pub fn recording_file_name(timestamp_millis: u128) -> (name: String)
    ensures
        name@ == file_name(timestamp_millis),
{
    let mut name = String::from_str("event_searcher_recording_");
    append_decimal(&mut name, timestamp_millis);
    name.append(".wav");
    name
}

} // verus!
