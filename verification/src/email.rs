//! Assembling the e-mail of an occurrence with lettre.
use vstd::prelude::*;
use crate::error::{MissignFieldError, TableProcessError};
use lettre::message::header::ContentType;

verus! {

/// `lettre::message::Mailbox`: a display name and an address.
#[verifier::external_type_specification]
#[verifier::external_body]
pub struct ExMailbox(lettre::message::Mailbox);

/// `lettre::Address`: a checked e-mail address.
#[verifier::external_type_specification]
#[verifier::external_body]
pub struct ExAddress(lettre::Address);

/// `lettre::message::MessageBuilder`: the headers of a message being written.
#[verifier::external_type_specification]
#[verifier::external_body]
pub struct ExMessageBuilder(lettre::message::MessageBuilder);

/// `lettre::Message`: a complete message, ready for a transport.
#[verifier::external_type_specification]
#[verifier::external_body]
pub struct ExMessage(lettre::Message);

/// `lettre::message::SinglePart`: one part of a MIME body.
#[verifier::external_type_specification]
#[verifier::external_body]
pub struct ExSinglePart(lettre::message::SinglePart);

/// `lettre::message::MultiPart`: a MIME body of several parts.
#[verifier::external_type_specification]
#[verifier::external_body]
pub struct ExMultiPart(lettre::message::MultiPart);

/// What a mailbox was made of.
pub enum MailboxModel {
    /// A mailbox read from this text (`Name <user@domain>` or a bare address).
    Read(Seq<char>),
    /// A mailbox of an optional display name and the address read from this text.
    Named(Option<Seq<char>>, Seq<char>),
}

/// One part of a MIME body: its content type (`text/html` or `text/plain`) and its text.
pub struct PartModel {
    pub html: bool,
    pub body: Seq<char>,
}

/// The headers and body given to a message: the `From` mailboxes, the
/// subject, the `To` mailboxes, in the order added, and the parts of its
/// `multipart/alternative` body.
pub struct MessageModel {
    pub from: Seq<MailboxModel>,
    pub subject: Option<Seq<char>>,
    pub to: Seq<MailboxModel>,
    pub parts: Seq<PartModel>,
}

/// A lettre mailbox and what it was made of.
pub struct MailboxValue {
    mailbox: lettre::message::Mailbox,
    model: Ghost<MailboxModel>,
}

/// A lettre address and the text it was read from.
pub struct AddressValue {
    address: lettre::Address,
    text: Ghost<Seq<char>>,
}

/// A lettre message builder and the headers given to it.
pub struct Draft {
    builder: lettre::message::MessageBuilder,
    model: Ghost<MessageModel>,
}

/// A lettre body part and what it holds.
pub struct PartValue {
    part: lettre::message::SinglePart,
    model: Ghost<PartModel>,
}

/// A lettre `multipart/alternative` body and its parts, in order.
pub struct BodyValue {
    body: lettre::message::MultiPart,
    model: Ghost<Seq<PartModel>>,
}

/// A complete lettre message, ready for a transport, and what it was built from.
pub struct Email {
    message: lettre::Message,
    model: Ghost<MessageModel>,
}

impl View for Email {
    type V = MessageModel;

    closed spec fn view(&self) -> MessageModel {
        self.model@
    }
}

impl Email {
    /// The message, for the transport.
    pub fn into_message(self) -> lettre::Message {
        self.message
    }
}

/// Whether lettre reads the text as a mailbox (`Name <user@domain>` or a bare address).
pub uninterp spec fn mailbox_parses(s: Seq<char>) -> bool;

/// Whether lettre reads the text as an e-mail address.
pub uninterp spec fn address_parses(s: Seq<char>) -> bool;

/// Whether lettre's `MessageBuilder::multipart` completes a message with
/// these headers (it reads its `From` and `To` headers back from their text).
pub uninterp spec fn message_builds(headers: MessageModel) -> bool;

/// `<Mailbox as FromStr>::from_str` of lettre; it depends on the text alone.
#[verifier::external_body]
fn parse_mailbox(s: &str) -> (res: Result<MailboxValue, lettre::address::AddressError>)
    ensures
        res is Ok <==> mailbox_parses(s@),
        res matches Ok(m) ==> m.model@ == MailboxModel::Read(s@),
{
    match s.parse::<lettre::message::Mailbox>() {
        Ok(m) => Ok(MailboxValue { mailbox: m, model: Ghost(MailboxModel::Read(s@)) }),
        Err(e) => Err(e),
    }
}

/// `<Address as FromStr>::from_str` of lettre; it depends on the text alone.
#[verifier::external_body]
fn parse_address(s: &str) -> (res: Result<AddressValue, lettre::address::AddressError>)
    ensures
        res is Ok <==> address_parses(s@),
        res matches Ok(a) ==> a.text@ == s@,
{
    match s.parse::<lettre::Address>() {
        Ok(a) => Ok(AddressValue { address: a, text: Ghost(s@) }),
        Err(e) => Err(e),
    }
}

pub open spec fn opt_text(s: Option<String>) -> Option<Seq<char>> {
    match s {
        Some(v) => Some(v@),
        None => None,
    }
}

/// `Mailbox::new` of lettre: the display name and the address.
#[verifier::external_body]
fn mailbox_new(name: Option<String>, address: AddressValue) -> (res: MailboxValue)
    ensures
        res.model@ == MailboxModel::Named(opt_text(name), address.text@),
{
    let model = Ghost(MailboxModel::Named(opt_text(name), address.text@));
    MailboxValue { mailbox: lettre::message::Mailbox::new(name, address.address), model }
}

/// `Message::builder` of lettre: no header yet.
#[verifier::external_body]
fn message_builder() -> (res: Draft)
    ensures
        res.model@ == (MessageModel { from: seq![], subject: None, to: seq![], parts: seq![] }),
{
    let model = Ghost(MessageModel { from: seq![], subject: None, to: seq![], parts: seq![] });
    Draft { builder: lettre::Message::builder(), model }
}

/// `MessageBuilder::from` of lettre: adds a mailbox to the `From` header.
#[verifier::external_body]
fn builder_from(b: Draft, m: MailboxValue) -> (res: Draft)
    ensures
        res.model@ == (MessageModel { from: b.model@.from.push(m.model@), ..b.model@ }),
{
    let model = Ghost(MessageModel { from: b.model@.from.push(m.model@), ..b.model@ });
    Draft { builder: b.builder.from(m.mailbox), model }
}

/// `MessageBuilder::subject` of lettre: sets the `Subject` header.
#[verifier::external_body]
fn builder_subject(b: Draft, s: String) -> (res: Draft)
    ensures
        res.model@ == (MessageModel { subject: Some(s@), ..b.model@ }),
{
    let model = Ghost(MessageModel { subject: Some(s@), ..b.model@ });
    Draft { builder: b.builder.subject(s), model }
}

/// `MessageBuilder::to` of lettre: adds a mailbox to the `To` header.
#[verifier::external_body]
fn builder_to(b: Draft, m: MailboxValue) -> (res: Draft)
    ensures
        res.model@ == (MessageModel { to: b.model@.to.push(m.model@), ..b.model@ }),
{
    let model = Ghost(MessageModel { to: b.model@.to.push(m.model@), ..b.model@ });
    Draft { builder: b.builder.to(m.mailbox), model }
}

/// `SinglePart::builder().header(ContentType::TEXT_PLAIN).body(..)` of lettre.
#[verifier::external_body]
fn plain_part(body: String) -> (res: PartValue)
    ensures
        res.model@ == (PartModel { html: false, body: body@ }),
{
    let model = Ghost(PartModel { html: false, body: body@ });
    PartValue { part: lettre::message::SinglePart::builder().header(ContentType::TEXT_PLAIN).body(body), model }
}

/// `SinglePart::builder().header(ContentType::TEXT_HTML).body(..)` of lettre.
#[verifier::external_body]
fn html_part(body: String) -> (res: PartValue)
    ensures
        res.model@ == (PartModel { html: true, body: body@ }),
{
    let model = Ghost(PartModel { html: true, body: body@ });
    PartValue { part: lettre::message::SinglePart::builder().header(ContentType::TEXT_HTML).body(body), model }
}

/// `MultiPart::alternative().singlepart(..).singlepart(..)` of lettre: the two parts in order.
#[verifier::external_body]
fn alternative(first: PartValue, second: PartValue) -> (res: BodyValue)
    ensures
        res.model@ == seq![first.model@, second.model@],
{
    let model = Ghost(seq![first.model@, second.model@]);
    BodyValue { body: lettre::message::MultiPart::alternative().singlepart(first.part).singlepart(second.part), model }
}

/// `MessageBuilder::multipart` of lettre. It fails without a `From` mailbox
/// (`MissingFrom`) and without a `To` mailbox (`MissingTo`); whether it
/// completes otherwise is named by `message_builds`. It stamps the current
/// date, which the model leaves out.
#[verifier::external_body]
fn builder_multipart(b: Draft, body: BodyValue) -> (res: Result<Email, lettre::error::Error>)
    ensures
        res is Ok <==> message_builds(b.model@),
        b.model@.from.len() == 0 ==> res is Err,
        b.model@.to.len() == 0 ==> res is Err,
        res matches Ok(e) ==> e@ == (MessageModel { parts: body.model@, ..b.model@ }),
{
    let model = Ghost(MessageModel { parts: body.model@, ..b.model@ });
    match b.builder.multipart(body.body) {
        Ok(m) => Ok(Email { message: m, model }),
        Err(e) => Err(e),
    }
}

/// A recipient that can be addressed: it has an address, and lettre reads it.
pub open spec fn recipient_ok(d: (Option<String>, Option<String>)) -> bool {
    match d.1 {
        Some(a) => address_parses(a@),
        None => false,
    }
}

/// The position of the first recipient, from `i` on, that cannot be addressed.
pub open spec fn first_bad_recipient(ds: Seq<(Option<String>, Option<String>)>, i: int) -> Option<int>
    decreases ds.len() - i,
{
    if i < 0 || i >= ds.len() {
        None
    } else if !recipient_ok(ds[i]) {
        Some(i)
    } else {
        first_bad_recipient(ds, i + 1)
    }
}

/// The error that the assembly of an e-mail ends with, before lettre's own
/// checks of the finished headers: a sender lettre cannot read, else the
/// first recipient that cannot be addressed.
pub open spec fn email_fault(sender: Seq<char>, ds: Seq<(Option<String>, Option<String>)>) -> Option<EmailFault> {
    if !mailbox_parses(sender) {
        Some(EmailFault::BadAddress)
    } else {
        match first_bad_recipient(ds, 0) {
            Some(k) => if ds[k].1 is None {
                Some(EmailFault::MissingAddress)
            } else {
                Some(EmailFault::BadAddress)
            },
            None => None,
        }
    }
}

/// The kinds of faults of the inputs of an e-mail.
pub enum EmailFault {
    /// A recipient without an address (`MissingData("email_addrs")`).
    MissingAddress,
    /// A sender or recipient text that is no address (`EmailParseError`).
    BadAddress,
}

/// Whether an error is the one that a fault gives.
pub open spec fn is_fault_error(f: EmailFault, e: TableProcessError) -> bool {
    match f {
        EmailFault::MissingAddress => e matches TableProcessError::MissingData(m) && m.0@
            == "email_addrs"@,
        EmailFault::BadAddress => e is EmailParseError,
    }
}

/// The mailbox that a recipient with an address is made into.
pub open spec fn recipient_mailbox(d: (Option<String>, Option<String>)) -> MailboxModel {
    MailboxModel::Named(
        opt_text(d.0),
        match d.1 {
            Some(a) => a@,
            None => Seq::empty(),
        },
    )
}

/// The headers of the e-mail of an occurrence: from the sender, with the
/// title as subject, to every recipient in order, display names kept.
pub open spec fn email_headers(
    sender: Seq<char>,
    ds: Seq<(Option<String>, Option<String>)>,
    title: Seq<char>,
) -> MessageModel {
    MessageModel {
        from: seq![MailboxModel::Read(sender)],
        subject: Some(title),
        to: ds.map_values(|d: (Option<String>, Option<String>)| recipient_mailbox(d)),
        parts: seq![],
    }
}

/// The body of the e-mail of an occurrence: a plain-text fallback, then the HTML page.
pub open spec fn email_parts(html: Seq<char>) -> Seq<PartModel> {
    seq![
        PartModel { html: false, body: "Falha em carregar a tabela"@ },
        PartModel { html: true, body: html },
    ]
}


/// The body of an occurrence's e-mail has two parts: the page itself is the
/// HTML part, and the fixed fallback text is the plain-text part, which comes
/// first; both carry their text unchanged.
pub proof fn lemma_email_parts(html: Seq<char>)
    ensures
        email_parts(html).len() == 2,
        email_parts(html)[0].html == false,
        email_parts(html)[0].body == "Falha em carregar a tabela"@,
        email_parts(html)[1].html == true,
        email_parts(html)[1].body == html,
        forall|k: int|
            0 <= k < email_parts(html).len() ==> (#[trigger] email_parts(html)[k].html
                ==> email_parts(html)[k].body == html),
{
}

/// The headers of an occurrence's e-mail: the sender as the one `From`
/// mailbox, the title as subject, and one `To` mailbox per recipient, in the
/// order given, each with the recipient's name and address text.
pub proof fn lemma_email_headers(
    sender: Seq<char>,
    ds: Seq<(Option<String>, Option<String>)>,
    title: Seq<char>,
)
    ensures
        email_headers(sender, ds, title).from == seq![MailboxModel::Read(sender)],
        email_headers(sender, ds, title).subject == Some(title),
        email_headers(sender, ds, title).to.len() == ds.len(),
        forall|k: int|
            0 <= k < ds.len() ==> ds[k].1 is Some ==> #[trigger] email_headers(sender, ds, title).to[k]
                == MailboxModel::Named(opt_text(ds[k].0), ds[k].1->0@),
{
}

/// The e-mail of an occurrence: from `sender`, to every recipient in order
/// (each with its optional display name), with the given subject, and a body
/// of two alternatives, a plain-text fallback and the HTML page.
pub fn build_email(
    sender: &str,
    destinos: &Vec<(Option<String>, Option<String>)>,
    title: String,
    html: String,
) -> (res: Result<Email, TableProcessError>)
    ensures
        match email_fault(sender@, destinos@) {
            Some(f) => res matches Err(e) && is_fault_error(f, e),
            None => {
                &&& (destinos@.len() == 0 ==> res matches Err(TableProcessError::EmailFormError(_)))
                &&& (res is Ok <==> message_builds(email_headers(sender@, destinos@, title@)))
                &&& (res matches Err(e) ==> e is EmailFormError)
                &&& (res matches Ok(m) ==> m@ == (MessageModel {
                    parts: email_parts(html@),
                    ..email_headers(sender@, destinos@, title@)
                }))
                &&& (res matches Ok(m) ==> m@.parts.len() == 2 && m@.parts[0] == (PartModel {
                    html: false,
                    body: "Falha em carregar a tabela"@,
                }) && m@.parts[1] == (PartModel { html: true, body: html@ }))
                &&& (res matches Ok(m) ==> m@.from == seq![MailboxModel::Read(sender@)]
                    && m@.subject == Some(title@) && m@.to.len() == destinos@.len())
                &&& (res matches Ok(m) ==> forall|k: int|
                    0 <= k < destinos@.len() ==> #[trigger] m@.to[k] == MailboxModel::Named(
                        opt_text(destinos@[k].0),
                        destinos@[k].1->0@,
                    ))
            },
        },
{
    let ghost headers = email_headers(sender@, destinos@, title@);
    let from = match parse_mailbox(sender) {
        Ok(m) => m,
        Err(e) => {
            return Err(TableProcessError::EmailParseError(e));
        },
    };
    let mut builder = builder_from(message_builder(), from);
    builder = builder_subject(builder, title);
    assert(builder.model@.from =~= headers.from);
    assert(builder.model@.to =~= headers.to.take(0));
    assert(builder.model@.parts =~= headers.parts);
    let mut i: usize = 0;
    while i < destinos.len()
        invariant
            i <= destinos.len(),
            mailbox_parses(sender@),
            first_bad_recipient(destinos@, 0) == first_bad_recipient(destinos@, i as int),
            headers == email_headers(sender@, destinos@, title@),
            builder.model@ == (MessageModel { to: headers.to.take(i as int), ..headers }),
            forall|j: int| 0 <= j < i ==> (#[trigger] destinos@[j]).1 is Some,
        decreases destinos.len() - i,
    {
        let (name, addr) = &destinos[i];
        let text = match addr {
            Some(a) => a,
            None => {
                proof {
                    reveal_strlit("email_addrs");
                }
                return Err(TableProcessError::MissingData(MissignFieldError::new("email_addrs")));
            },
        };
        let address = match parse_address(text.as_str()) {
            Ok(a) => a,
            Err(e) => {
                return Err(TableProcessError::EmailParseError(e));
            },
        };
        builder = builder_to(builder, mailbox_new(name.clone(), address));
        assert(headers.to.take(i + 1) =~= headers.to.take(i as int).push(recipient_mailbox(destinos@[i as int])));
        i = i + 1;
    }
    assert(headers.to.take(destinos@.len() as int) =~= headers.to);
    assert(builder.model@ == headers);
    proof {
        lemma_email_parts(html@);
        lemma_email_headers(sender@, destinos@, title@);
    }
    let body = alternative(plain_part("Falha em carregar a tabela".to_string()), html_part(html));
    match builder_multipart(builder, body) {
        Ok(m) => Ok(m),
        Err(e) => Err(TableProcessError::EmailFormError(e)),
    }
}

} // verus!
