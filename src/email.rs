use vstd::prelude::*;

verus! {

/// Subject line of a one-time-code message.
pub const OTP_SUBJECT: &'static str = "Hello from Postmark";

/// Plain-text body of a one-time-code message.
pub const OTP_TEXT_BODY: &'static str = "hello there";

/// Message stream a one-time-code message is sent on.
pub const OTP_STREAM: &'static str = "broadcast";

/// An outbound email, field by field, as the delivery gateway submits it.
pub struct EmailRequest {
    pub from: String,
    pub to: String,
    pub subject: String,
    pub html_body: String,
    pub text_body: String,
    pub message_stream: String,
}

/// The HTML body that greets `person_email` and carries the code `otp`.
pub open spec fn otp_html(person_email: Seq<char>, otp: Seq<char>) -> Seq<char> {
    "<strong>Hello "@ + person_email + "</strong> below is your OTP: <strong>"@ + otp
        + "</strong>"@
}

/// Composes the message that delivers `otp` from `from` to `to`.
pub fn create_request_data(from: &str, to: &str, person_email: &str, otp: &str) -> (r:
    EmailRequest)
    ensures
        r.from@ == from@,
        r.to@ == to@,
        r.subject@ == OTP_SUBJECT@,
        r.html_body@ == otp_html(person_email@, otp@),
        r.text_body@ == OTP_TEXT_BODY@,
        r.message_stream@ == OTP_STREAM@,
{
    let mut html = "<strong>Hello ".to_owned();
    html.append(person_email);
    html.append("</strong> below is your OTP: <strong>");
    html.append(otp);
    html.append("</strong>");
    EmailRequest {
        from: from.to_owned(),
        to: to.to_owned(),
        subject: OTP_SUBJECT.to_owned(),
        html_body: html,
        text_body: OTP_TEXT_BODY.to_owned(),
        message_stream: OTP_STREAM.to_owned(),
    }
}

/// The message that delivers `otp` to the account holder at `email`.
pub fn otp_email(from: &str, email: &str, otp: &str) -> (r: EmailRequest)
    ensures
        r.from@ == from@,
        r.to@ == email@,
        r.html_body@ == otp_html(email@, otp@),
        r.subject@ == OTP_SUBJECT@,
        r.text_body@ == OTP_TEXT_BODY@,
        r.message_stream@ == OTP_STREAM@,
{
    create_request_data(from, email, email, otp)
}

} // verus!
