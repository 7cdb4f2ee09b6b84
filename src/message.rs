//! The PreLogin message: the option descriptor table, its terminator and the
//! option values, framed by a packet header whose length always matches.
use vstd::prelude::*;
use crate::catalog::{
    PreLoginOptionToken, SqlVersion, StaticValues, DESCRIPTOR_SIZE, TERMINATOR,
};
use crate::header::{
    encode, high_byte, low_byte, ClientMessageType, MessageStatus, TdsHeader, HEADER_SIZE,
};

verus! {

/// Offset written into the first option descriptor: the header size plus the
/// terminator byte, which puts the value of a lone Version option at 9 as the
/// request this client sends has it. Whether offsets count from the body or
/// from the packet start is an open question of this layout; it is kept as a
/// single constant so that it can be settled against a live server. Each later
/// option starts where the previous value ends.
pub const VALUE_OFFSET_BASE: u16 = HEADER_SIZE + 1;

/// Largest body that a single packet can frame.
pub const MAX_BODY_LEN: u16 = 0xffff - HEADER_SIZE;

/// One option to negotiate: which option, its declared length and its value.
pub struct PreLoginOption {
    pub token: PreLoginOptionToken,
    pub length: u16,
    pub value: Vec<u8>,
}

/// Misuse of the PreLogin builder.
#[derive(Clone, Copy, Debug, PartialEq, Eq, Structural)]
pub enum ConfigurationError {
    /// An option's declared length differs from the length of its value.
    LengthMismatch,
    /// The same option appears twice.
    DuplicateOption,
}

/// The five bytes that describe one option: code, offset and length, big-endian.
pub open spec fn descriptor(code: u8, offset: u16, length: u16) -> Seq<u8> {
    seq![code, high_byte(offset), low_byte(offset), high_byte(length), low_byte(length)]
}

/// The option values, concatenated in list order.
pub open spec fn values_of(opts: Seq<PreLoginOption>) -> Seq<u8>
    decreases opts.len(),
{
    if opts.len() == 0 {
        Seq::empty()
    } else {
        values_of(opts.drop_last()) + opts.last().value@
    }
}

/// Offset recorded for the option at position `i`.
pub open spec fn option_offset(opts: Seq<PreLoginOption>, i: int) -> int {
    VALUE_OFFSET_BASE + values_of(opts.take(i)).len()
}

/// The descriptor table: one descriptor per option, in list order, each
/// pointing just past the values of the options before it.
pub open spec fn table_of(opts: Seq<PreLoginOption>) -> Seq<u8>
    decreases opts.len(),
{
    if opts.len() == 0 {
        Seq::empty()
    } else {
        table_of(opts.drop_last()) + descriptor(
            opts.last().token.code(),
            (VALUE_OFFSET_BASE + values_of(opts.drop_last()).len()) as u16,
            opts.last().value@.len() as u16,
        )
    }
}

/// The PreLogin body: descriptor table, terminator, then the values.
pub open spec fn prelogin_body(opts: Seq<PreLoginOption>) -> Seq<u8> {
    table_of(opts) + seq![TERMINATOR] + values_of(opts)
}

/// Size of the PreLogin body for these options.
pub open spec fn prelogin_body_len(opts: Seq<PreLoginOption>) -> int {
    DESCRIPTOR_SIZE * opts.len() + 1 + values_of(opts).len()
}

pub open spec fn has_length_mismatch(opts: Seq<PreLoginOption>) -> bool {
    exists|i: int| 0 <= i < opts.len() && opts[i].length != opts[i].value@.len()
}

pub open spec fn has_duplicate(opts: Seq<PreLoginOption>) -> bool {
    exists|i: int, j: int| 0 <= i < j < opts.len() && opts[i].token == opts[j].token
}

/// The body fits in one packet together with its header.
pub open spec fn fits_in_packet(opts: Seq<PreLoginOption>) -> bool {
    prelogin_body_len(opts) <= MAX_BODY_LEN
}

proof fn lemma_values_prefix_len(opts: Seq<PreLoginOption>, i: int)
    requires
        0 <= i <= opts.len(),
    ensures
        values_of(opts.take(i)).len() <= values_of(opts).len(),
    decreases opts.len(),
{
    if i < opts.len() {
        assert(opts.take(i) =~= opts.drop_last().take(i));
        lemma_values_prefix_len(opts.drop_last(), i);
    } else {
        assert(opts.take(i) =~= opts);
    }
}

proof fn lemma_table_len(opts: Seq<PreLoginOption>)
    ensures
        table_of(opts).len() == DESCRIPTOR_SIZE * opts.len(),
    decreases opts.len(),
{
    if opts.len() > 0 {
        lemma_table_len(opts.drop_last());
    }
}

/// Layout of a built PreLogin body: the descriptor of the option at position
/// `i` is the `i`-th five-byte record of the table and carries that option's
/// code, offset and length; the value region holds that option's value at its
/// offset (less the base), so the values tile the region in list order with no
/// gap or overlap.
pub proof fn lemma_option_layout(opts: Seq<PreLoginOption>, i: int)
    requires
        0 <= i < opts.len(),
    ensures
        table_of(opts).subrange(DESCRIPTOR_SIZE * i, DESCRIPTOR_SIZE * i + DESCRIPTOR_SIZE) == descriptor(
            opts[i].token.code(),
            option_offset(opts, i) as u16,
            opts[i].value@.len() as u16,
        ),
        values_of(opts).subrange(
            option_offset(opts, i) - VALUE_OFFSET_BASE,
            option_offset(opts, i) - VALUE_OFFSET_BASE + opts[i].value@.len(),
        ) == opts[i].value@,
    decreases opts.len(),
{
    let dl = opts.drop_last();
    lemma_table_len(dl);
    if i == opts.len() - 1 {
        assert(opts.take(i) =~= dl);
        assert(table_of(opts).subrange(DESCRIPTOR_SIZE * i, DESCRIPTOR_SIZE * i + DESCRIPTOR_SIZE)
            =~= descriptor(opts[i].token.code(), option_offset(opts, i) as u16, opts[i].value@.len() as u16));
        assert(values_of(opts).subrange(
            option_offset(opts, i) - VALUE_OFFSET_BASE,
            option_offset(opts, i) - VALUE_OFFSET_BASE + opts[i].value@.len(),
        ) =~= opts[i].value@);
    } else {
        lemma_option_layout(dl, i);
        assert(dl.take(i) =~= opts.take(i));
        assert(dl[i] == opts[i]);
        assert(dl.take(i + 1).drop_last() =~= dl.take(i));
        lemma_values_prefix_len(dl, i + 1);
        assert(table_of(opts).subrange(DESCRIPTOR_SIZE * i, DESCRIPTOR_SIZE * i + DESCRIPTOR_SIZE)
            =~= table_of(dl).subrange(DESCRIPTOR_SIZE * i, DESCRIPTOR_SIZE * i + DESCRIPTOR_SIZE));
        assert(values_of(opts).subrange(
            option_offset(opts, i) - VALUE_OFFSET_BASE,
            option_offset(opts, i) - VALUE_OFFSET_BASE + opts[i].value@.len(),
        ) =~= values_of(dl).subrange(
            option_offset(dl, i) - VALUE_OFFSET_BASE,
            option_offset(dl, i) - VALUE_OFFSET_BASE + dl[i].value@.len(),
        ));
    }
}

/// Appends `src` to `dst`.
fn append_bytes(dst: &mut Vec<u8>, src: &[u8])
    ensures
        final(dst)@ == old(dst)@ + src@,
{
    let mut i: usize = 0;
    while i < src.len()
        invariant
            0 <= i <= src@.len(),
            dst@ == old(dst)@ + src@.take(i as int),
        decreases src@.len() - i,
    {
        dst.push(src[i]);
        i = i + 1;
        assert(src@.take(i as int) =~= src@.take(i - 1) + seq![src@[i - 1]]);
    }
    assert(src@.take(src@.len() as int) =~= src@);
}

/// Whether some option's declared length differs from its value's length.
fn find_length_mismatch(options: &Vec<PreLoginOption>) -> (r: bool)
    ensures
        r == has_length_mismatch(options@),
{
    let mut i: usize = 0;
    while i < options.len()
        invariant
            0 <= i <= options@.len(),
            forall|k: int| 0 <= k < i ==> options@[k].length == options@[k].value@.len(),
        decreases options@.len() - i,
    {
        if options[i].length as usize != options[i].value.len() {
            return true;
        }
        i = i + 1;
    }
    false
}

/// Whether some option appears twice.
fn find_duplicate(options: &Vec<PreLoginOption>) -> (r: bool)
    ensures
        r == has_duplicate(options@),
{
    let mut j: usize = 0;
    while j < options.len()
        invariant
            0 <= j <= options@.len(),
            forall|a: int, b: int|
                0 <= a < b < j ==> options@[a].token != options@[b].token,
        decreases options@.len() - j,
    {
        let mut i: usize = 0;
        while i < j
            invariant
                0 <= i <= j < options@.len(),
                forall|a: int| 0 <= a < i ==> options@[a].token != options@[j as int].token,
            decreases j - i,
        {
            if options[i].token == options[j].token {
                return true;
            }
            i = i + 1;
        }
        j = j + 1;
    }
    false
}

/// Lays out a PreLogin body for `options`, in their order.
///
/// Fails with `LengthMismatch` when a declared length is wrong, else with
/// `DuplicateOption` when an option repeats; on success the body is the
/// descriptor table, the terminator and the concatenated values.
pub fn build_prelogin_body(options: &Vec<PreLoginOption>) -> (r: Result<Vec<u8>, ConfigurationError>)
    requires
        fits_in_packet(options@),
    ensures
        r is Ok <==> !has_length_mismatch(options@) && !has_duplicate(options@),
        r == Err::<Vec<u8>, _>(ConfigurationError::LengthMismatch) <==> has_length_mismatch(options@),
        r == Err::<Vec<u8>, _>(ConfigurationError::DuplicateOption) <==> !has_length_mismatch(options@)
            && has_duplicate(options@),
        r is Ok ==> r->Ok_0@ == prelogin_body(options@),
{
    if find_length_mismatch(options) {
        return Err(ConfigurationError::LengthMismatch);
    }
    if find_duplicate(options) {
        return Err(ConfigurationError::DuplicateOption);
    }
    let ghost opts = options@;
    let mut table: Vec<u8> = Vec::new();
    let mut values: Vec<u8> = Vec::new();
    let mut i: usize = 0;
    while i < options.len()
        invariant
            0 <= i <= opts.len(),
            opts == options@,
            fits_in_packet(opts),
            !has_length_mismatch(opts),
            table@ == table_of(opts.take(i as int)),
            values@ == values_of(opts.take(i as int)),
        decreases opts.len() - i,
    {
        proof {
            lemma_values_prefix_len(opts, i as int);
            assert(opts.take(i + 1).drop_last() =~= opts.take(i as int));
            assert(opts.take(i + 1).last() == opts[i as int]);
            assert(opts[i as int].length == opts[i as int].value@.len());
        }
        let offset: u16 = VALUE_OFFSET_BASE + values.len() as u16;
        let opt = &options[i];
        table = TdsMessage::add_preflight(table, offset, opt.length, opt.token);
        append_bytes(&mut values, opt.value.as_slice());
        i = i + 1;
    }
    assert(opts.take(opts.len() as int) =~= opts);
    let mut body = table;
    body.push(StaticValues::Terminator.value());
    append_bytes(&mut body, values.as_slice());
    Ok(body)
}

/// The options this client sends: the SQL Server 2022 version.
pub fn default_prelogin_options() -> (r: Vec<PreLoginOption>)
    ensures
        r@.len() == 1,
        r@[0].token == PreLoginOptionToken::Version,
        r@[0].length == 6,
        r@[0].value@ == crate::catalog::sql_server_2022_version(),
{
    let version = SqlVersion::SqlServer2022.value();
    let mut value: Vec<u8> = Vec::new();
    append_bytes(&mut value, &version);
    let mut r: Vec<PreLoginOption> = Vec::new();
    r.push(PreLoginOption { token: PreLoginOptionToken::Version, length: 6, value });
    r
}

/// A packet: header and body.
pub struct TdsMessage {
    header: TdsHeader,
    body: Vec<u8>,
}

impl TdsMessage {
    pub closed spec fn spec_header(&self) -> TdsHeader {
        self.header
    }

    pub closed spec fn spec_body(&self) -> Seq<u8> {
        self.body@
    }

    /// The header's length field counts the header and the body.
    pub open spec fn wf(&self) -> bool {
        self.spec_header().length == HEADER_SIZE + self.spec_body().len()
    }

    /// An empty PreLogin request.
    pub fn new() -> (r: TdsMessage)
        ensures
            r.wf(),
            r.spec_body().len() == 0,
            r.spec_header() == (TdsHeader {
                message_type: ClientMessageType::PreLogin.code(),
                status: MessageStatus::EndOfMessage.code(),
                length: HEADER_SIZE,
                spid: 0,
                packet_id: 1,
                window: 0,
            }),
    {
        let body: Vec<u8> = Vec::new();
        let mut header = TdsHeader::new(ClientMessageType::PreLogin, MessageStatus::EndOfMessage);
        header.length = HEADER_SIZE;
        TdsMessage { header, body }
    }

    pub fn header(&self) -> (r: TdsHeader)
        ensures
            r == self.spec_header(),
    {
        self.header
    }

    pub fn body(&self) -> (r: &Vec<u8>)
        ensures
            r@ == self.spec_body(),
    {
        &self.body
    }

    /// The packet's wire bytes: the encoded header followed by the body.
    pub fn to_bytes(&self) -> (r: Vec<u8>)
        ensures
            r@ == encode(self.spec_header()) + self.spec_body(),
    {
        let mut buffer: Vec<u8> = Vec::new();
        let head = self.header.to_byte_array();
        append_bytes(&mut buffer, &head);
        append_bytes(&mut buffer, self.body.as_slice());
        buffer
    }

    /// Sets the header's length to the header size plus the body size.
    pub fn calc_length(&mut self)
        requires
            old(self).spec_body().len() <= MAX_BODY_LEN,
        ensures
            final(self).wf(),
            final(self).spec_body() == old(self).spec_body(),
            final(self).spec_header() == (TdsHeader {
                length: (HEADER_SIZE + old(self).spec_body().len()) as u16,
                ..old(self).spec_header()
            }),
    {
        let length: u16 = HEADER_SIZE + self.body.len() as u16;
        self.header.length = length;
    }

    /// Replaces the body with the PreLogin layout of `options` and frames it as
    /// a single, complete PreLogin packet. On error the message is unchanged.
    pub fn set_prelogin_options(&mut self, options: &Vec<PreLoginOption>) -> (r: Result<(), ConfigurationError>)
        requires
            fits_in_packet(options@),
        ensures
            r is Ok <==> !has_length_mismatch(options@) && !has_duplicate(options@),
            r == Err::<(), _>(ConfigurationError::LengthMismatch) <==> has_length_mismatch(options@),
            r == Err::<(), _>(ConfigurationError::DuplicateOption) <==> !has_length_mismatch(options@)
                && has_duplicate(options@),
            r is Err ==> final(self).spec_header() == old(self).spec_header()
                && final(self).spec_body() == old(self).spec_body(),
            r is Ok ==> final(self).wf() && final(self).spec_body() == prelogin_body(options@)
                && final(self).spec_header() == (TdsHeader {
                message_type: ClientMessageType::PreLogin.code(),
                status: MessageStatus::EndOfMessage.code(),
                length: (HEADER_SIZE + prelogin_body_len(options@)) as u16,
                ..old(self).spec_header()
            }),
    {
        match build_prelogin_body(options) {
            Ok(body) => {
                proof {
                    lemma_table_len(options@);
                }
                self.body = body;
                self.header.update_message_type(ClientMessageType::PreLogin);
                self.header.update_status(MessageStatus::EndOfMessage);
                self.calc_length();
                Ok(())
            },
            Err(e) => Err(e),
        }
    }

    /// Fills the body with this client's PreLogin request: a single Version
    /// option announcing SQL Server 2022.
    pub fn generate_prelogin(&mut self)
        ensures
            final(self).wf(),
            final(self).spec_body() == descriptor(0x00, VALUE_OFFSET_BASE, 6) + seq![TERMINATOR]
                + crate::catalog::sql_server_2022_version(),
            final(self).spec_header() == (TdsHeader {
                message_type: ClientMessageType::PreLogin.code(),
                status: MessageStatus::EndOfMessage.code(),
                length: 20,
                ..old(self).spec_header()
            }),
    {
        let options = default_prelogin_options();
        proof {
            let opts = options@;
            assert(opts.drop_last() =~= Seq::<PreLoginOption>::empty());
            reveal_with_fuel(values_of, 2);
            assert(values_of(opts) =~= crate::catalog::sql_server_2022_version());
            assert(!has_duplicate(opts));
            assert(!has_length_mismatch(opts));
            reveal_with_fuel(table_of, 2);
            assert(table_of(opts) =~= descriptor(0x00, VALUE_OFFSET_BASE, 6));
        }
        let r = self.set_prelogin_options(&options);
        assert(r is Ok);
    }

    /// Appends one option descriptor (code, offset, length; big-endian) to `body`.
    pub fn add_preflight(body: Vec<u8>, offset_start: u16, length: u16, option: PreLoginOptionToken) -> (r: Vec<u8>)
        ensures
            r@ == body@ + descriptor(option.code(), offset_start, length),
    {
        let ghost start = body@;
        let mut body = body;
        body.push(option.value());
        body.push((offset_start / 256) as u8);
        body.push((offset_start % 256) as u8);
        body.push((length / 256) as u8);
        body.push((length % 256) as u8);
        assert(body@ =~= start + descriptor(option.code(), offset_start, length));
        body
    }
}

} // verus!
