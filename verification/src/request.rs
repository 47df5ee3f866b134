//! What the server does with one command: stop, report that it is alive, or
//! prepare the enrollment of the senders of a mail.

use crate::database::{insert_subscriptions, Enrollment};
use crate::error::{Error, ErrorView};
use crate::parse_mail::{addresses_in, get_addresses_in_from_header};
use crate::state::{
    get_server_state, may_read, stop_server, ServerState, Shutdown, NOT_RUNNING,
};
use crate::text::texts_view;
use crate::types::{Action, Command, CommandView, DaemonState, Subscription};
use mailparse::MailHeaderMap;
use vstd::prelude::*;

verus! {

/// The header that names the senders of a mail.
pub const SENDER_HEADER: &'static str = "From";

/// How reports call the header of the senders.
pub const SENDER_LABEL: &'static str = "FROM";

/// How reports call a request to subscribe.
pub const SUBSCRIBE_LABEL: &'static str = "SUBSCRIBE";

/// The error with which `mailparse` refuses a mail. It is carried through
/// as it is; nothing is known of what it holds.
#[verifier::external_type_specification]
#[verifier::external_body]
pub struct ExMailParseError(mailparse::MailParseError);

/// What the crate `mailparse` makes of the text `mail` and the header name
/// `name`: `None` where it cannot parse the mail; else the value of the first
/// header of that name, upper and lower case taken alike, or `Some(None)`
/// where the mail has no such header.
pub uninterp spec fn mail_header(mail: Seq<char>, name: Seq<char>) -> Option<Option<Seq<char>>>;

/// Parses the bytes of `mail` with `mailparse::parse_mail` and asks the
/// headers of the result for the first value under `name`, with
/// `MailHeaderMap::get_first_value`. The contract names what comes back; a
/// mail that does not parse gives the crate's error.
#[verifier::external_body]
fn first_header_value(mail: &str, name: &str) -> (found: Result<
    Option<String>,
    mailparse::MailParseError,
>)
    ensures
        mail_header(mail@, name@) == match found {
            Ok(Some(value)) => Some(Some(value@)),
            Ok(None) => Some(None),
            Err(_) => None,
        },
{
    let parsed = mailparse::parse_mail(mail.as_bytes())?;
    Ok(parsed.headers.get_first_value(name))
}

/// Writes out the report of a parse error with its `to_string`. Nothing is
/// claimed of the text.
#[verifier::external_body]
fn parse_error_text(error: &mailparse::MailParseError) -> (text: String) {
    error.to_string()
}

/// Whether `c` is a digit of a number written to base sixteen in lower case.
pub open spec fn is_hex_digit(c: char) -> bool {
    ('0' <= c && c <= '9') || ('a' <= c && c <= 'f')
}

/// Whether `text` has the form of a random identifier: 36 characters, hyphens
/// after the 8th, 12th, 16th and 20th digit and digits to base sixteen
/// elsewhere, the 13th digit a `4` and the 17th one of `8`, `9`, `a`, `b`.
pub open spec fn is_uuid_text(text: Seq<char>) -> bool {
    &&& text.len() == 36
    &&& forall|i: int|
        0 <= i < 36 ==> if i == 8 || i == 13 || i == 18 || i == 23 {
            #[trigger] text[i] == '-'
        } else {
            is_hex_digit(text[i])
        }
    &&& text[14] == '4'
    &&& (text[19] == '8' || text[19] == '9' || text[19] == 'a' || text[19] == 'b')
}

/// Draws an identifier with `uuid::Uuid::new_v4` and writes it with its
/// `to_string`. Which identifier comes is chance; the contract holds what is
/// true of each: the hyphenated lower-case form, with the marks of a random
/// identifier in their places.
#[verifier::external_body]
fn fresh_uuid() -> (id: String)
    ensures
        is_uuid_text(id@),
{
    uuid::Uuid::new_v4().to_string()
}

/// What is done after a subscription has been inserted. Nothing so far, so
/// this never fails.
pub fn send_mail_for_subscription(_subscription: &Subscription) -> (done: Result<(), Error>)
    ensures
        done is Ok,
{
    Ok(())
}

/// The text of the senders' header, from what the search for it in the mail
/// `request` gave: the value that was found; else the report that the header
/// is missing, or that the mail could not be parsed.
pub fn sender_of(request: &str, found: Result<Option<String>, mailparse::MailParseError>) -> (sender:
    Result<String, Error>)
    ensures
        match found {
            Ok(Some(value)) => sender == Ok::<String, Error>(value),
            Ok(None) => sender matches Err(error) && error@ == (ErrorView::EmptyOrMissingHeader {
                header: SENDER_LABEL@,
                request: request@,
            }),
            Err(_) => sender matches Err(error) && error@ is MailParseError,
        },
{
    match found {
        Ok(Some(value)) => Ok(value),
        Ok(None) => Err(
            Error::EmptyOrMissingHeader {
                header: SENDER_LABEL.to_owned(),
                request: request.to_owned(),
            },
        ),
        Err(error) => Err(Error::MailParseError { source: parse_error_text(&error) }),
    }
}

/// The addresses of a request, if there are any: `addresses` as they are;
/// the report that the senders' header of the mail `request` could not be
/// parsed where there is none.
pub fn some_addresses(request: &str, addresses: Vec<String>) -> (checked: Result<
    Vec<String>,
    Error,
>)
    ensures
        if addresses.len() > 0 {
            checked == Ok::<Vec<String>, Error>(addresses)
        } else {
            checked matches Err(error) && error@ == (ErrorView::CouldNotParseHeader {
                header: SENDER_LABEL@,
                request: request@,
            })
        },
{
    if addresses.len() > 0 {
        Ok(addresses)
    } else {
        Err(
            Error::CouldNotParseHeader {
                header: SENDER_LABEL.to_owned(),
                request: request.to_owned(),
            },
        )
    }
}

/// Whether `subscriptions` are made for `addresses`: one for each, in order,
/// each under an identifier of the random form.
pub open spec fn subscribes(subscriptions: Seq<Subscription>, addresses: Seq<Seq<char>>) -> bool {
    &&& subscriptions.len() == addresses.len()
    &&& forall|i: int|
        0 <= i < subscriptions.len() ==> (#[trigger] subscriptions[i]).email@ == addresses[i]
            && is_uuid_text(subscriptions[i].uuid@)
}

/// Makes a subscription for each address, in order, each under a fresh
/// identifier.
pub fn new_subscriptions(addresses: Vec<String>) -> (subscriptions: Vec<Subscription>)
    ensures
        subscribes(subscriptions@, texts_view(addresses@)),
{
    let mut subscriptions: Vec<Subscription> = Vec::new();
    let mut i: usize = 0;
    while i < addresses.len()
        invariant
            i <= addresses.len(),
            subscriptions.len() == i,
            forall|k: int|
                0 <= k < i ==> (#[trigger] subscriptions[k]).email@ == addresses[k]@
                    && is_uuid_text(subscriptions[k].uuid@),
        decreases addresses.len() - i,
    {
        let subscription = Subscription { email: addresses[i].clone(), uuid: fresh_uuid() };
        subscriptions.push(subscription);
        i = i + 1;
    }
    subscriptions
}

/// What a request to subscribe has to lead to. In this order: a request
/// without a mail is refused; so is a mail that does not parse, a mail
/// without the senders' header, a header without an address, and a request
/// that names no list. Else the enrollment is ready to start: for the list
/// that the request names, with the mail as the request's text, one
/// subscription for each address of the header in order, on the database of
/// the running server. A server that has been stopped starts nothing.
pub open spec fn subscribe_outcome(
    command: CommandView,
    server: ServerState,
    started: Result<Enrollment, Error>,
) -> bool {
    match command.data {
        None => started matches Err(error) && error@ == ErrorView::SubscriptionRequestWithoutData,
        Some(mail) => match mail_header(mail, SENDER_HEADER@) {
            None => started matches Err(error) && error@ is MailParseError,
            Some(None) => started matches Err(error) && error@ == (
            ErrorView::EmptyOrMissingHeader { header: SENDER_LABEL@, request: mail }),
            Some(Some(sender)) => if addresses_in(sender).len() == 0 {
                started matches Err(error) && error@ == (ErrorView::CouldNotParseHeader {
                    header: SENDER_LABEL@,
                    request: mail,
                })
            } else {
                match command.list_name {
                    None => started matches Err(error) && error@ == (
                    ErrorView::RequestWithoutListName {
                        request_type: SUBSCRIBE_LABEL@,
                        request: mail,
                    }),
                    Some(list_name) => match started {
                        Ok(enrollment) => {
                            &&& enrollment@.wf()
                            &&& enrollment@.db_url == server.started().config.db_url
                            &&& enrollment@.list_name == list_name
                            &&& enrollment@.request == mail
                            &&& enrollment@.list_id is None
                            &&& enrollment@.phase is Connecting
                            &&& enrollment@.subscriptions.len() == addresses_in(sender).len()
                            &&& forall|i: int|
                                0 <= i < addresses_in(sender).len() ==> (
                                #[trigger] enrollment@.subscriptions[i]).email == addresses_in(
                                    sender,
                                )[i] && is_uuid_text(enrollment@.subscriptions[i].uuid)
                        },
                        Err(error) => error@ == (ErrorView::ServerStateError {
                            source: NOT_RUNNING@,
                        }),
                    },
                }
            },
        },
    }
}

/// Prepares the enrollment that a request to subscribe asks for: takes the
/// addresses from the senders' header of the mail in `command.data` and
/// starts an enrollment for them in the list `command.list_name`.
pub fn handle_subscribe(command: Command, server: &ServerState) -> (started: Result<
    Enrollment,
    Error,
>)
    ensures
        subscribe_outcome(command@, *server, started),
{
    let Command { action: _, originator: _, list_name, data } = command;
    let mail = match data {
        Some(mail) => mail,
        None => {
            return Err(Error::SubscriptionRequestWithoutData);
        },
    };
    let sender = match sender_of(mail.as_str(), first_header_value(mail.as_str(), SENDER_HEADER)) {
        Ok(sender) => sender,
        Err(error) => {
            return Err(error);
        },
    };
    let found = get_addresses_in_from_header(sender.as_str());
    let addresses = match some_addresses(mail.as_str(), found) {
        Ok(addresses) => addresses,
        Err(error) => {
            return Err(error);
        },
    };
    let list_name = match list_name {
        Some(list_name) => list_name,
        None => {
            return Err(
                Error::RequestWithoutListName {
                    request_type: SUBSCRIBE_LABEL.to_owned(),
                    request: mail,
                },
            );
        },
    };
    let subscriptions = new_subscriptions(addresses);
    let ghost made = subscriptions@;
    let started = insert_subscriptions(server, list_name.as_str(), subscriptions, mail.as_str());
    proof {
        if started is Ok {
            let enrolled = started->Ok_0@.subscriptions;
            assert forall|i: int| 0 <= i < addresses_in(sender@).len() implies (
            #[trigger] enrolled[i]).email == addresses_in(sender@)[i] && is_uuid_text(
                enrolled[i].uuid,
            ) by {
                assert(enrolled[i] == made[i]@);
            }
        }
    }
    started
}

/// What the server owes to one command.
pub enum Response<'a> {
    /// The server is to stop. No reply is sent: that the server is gone is
    /// the answer.
    Stopping(Shutdown<'a>),
    /// The reply to send: the state of the server. Where it could not be
    /// read, nothing is sent.
    Alive(Result<DaemonState, Error>),
    /// The enrollment to carry out on the database; where it could not be
    /// prepared, why not. No reply is sent either way.
    Enrolling(Result<Enrollment, Error>),
}

/// Decides what one command leads to, by its action. To stop, the cell of
/// the server is taken; to report, it is read; to subscribe, the enrollment
/// is prepared.
pub fn process_request<'a>(command: Command, server: &'a ServerState) -> (response: Response<'a>)
    ensures
        match command.action {
            Action::Stop => response matches Response::Stopping(shutdown) && (
            shutdown.found() matches Some(state) ==> state == server.started()),
            Action::Alive => response matches Response::Alive(read) && may_read(*server, read),
            Action::Subscribe => response matches Response::Enrolling(started)
                && subscribe_outcome(command@, *server, started),
        },
{
    match command.action {
        Action::Stop => Response::Stopping(stop_server(server)),
        Action::Alive => Response::Alive(get_server_state(server)),
        Action::Subscribe => Response::Enrolling(handle_subscribe(command, server)),
    }
}

} // verus!
