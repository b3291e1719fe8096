//! Requests and responses of the mail service's HTTP interface.
use vstd::prelude::*;
use crate::store::{arrival, holds_id, ids_unique, index_of, process_incoming_email, put, EmailStore};

verus! {

/// A message handed to the service for storage.
pub struct EmailReceiveRequest {
    pub from: String,
    pub to: String,
    pub subject: String,
    pub body: String,
}

/// The answer to an `EmailReceiveRequest`.
pub struct EmailReceiveResponse {
    pub success: bool,
    pub email_id: Option<String>,
    pub message: String,
}

/// A request to classify a stored message.
pub struct ClassifyEmailRequest {
    pub email_id: String,
}

/// A request to connect to the classification service.
pub struct AiConnectRequest {
    pub api_key: String,
    pub model: String,
}

/// The answer to an `AiConnectRequest`.
pub struct AiConnectResponse {
    pub success: bool,
    pub session_id: Option<String>,
    pub message: String,
}

impl EmailReceiveResponse {
    /// The message was stored under `email_id`.
    pub fn received(email_id: String) -> (r: EmailReceiveResponse)
        ensures
            r.success,
            r.email_id is Some && r.email_id->0@ == email_id@,
            r.message@ == "이메일 수신 성공"@,
    {
        EmailReceiveResponse {
            success: true,
            email_id: Some(email_id),
            message: String::from_str("이메일 수신 성공"),
        }
    }

    /// Storing the message failed for `reason`.
    pub fn failed(reason: &str) -> (r: EmailReceiveResponse)
        ensures
            !r.success,
            r.email_id is None,
            r.message@ == "이메일 처리 실패: "@ + reason@,
    {
        let mut message = String::from_str("이메일 처리 실패: ");
        message.append(reason);
        EmailReceiveResponse { success: false, email_id: None, message }
    }
}

impl AiConnectResponse {
    /// The connection is accepted at once; no session is kept.
    pub fn connected() -> (r: AiConnectResponse)
        ensures
            r.success,
            r.session_id is None,
            r.message@ == "AI 연결 성공"@,
    {
        AiConnectResponse {
            success: true,
            session_id: None,
            message: String::from_str("AI 연결 성공"),
        }
    }
}

/// The classification endpoint of a service whose base address, without a
/// trailing slash, is `base`.
pub fn classify_endpoint(base: &str) -> (r: String)
    ensures
        r@ == base@ + "/api/email/classify"@,
{
    let mut url = String::from_str(base);
    url.append("/api/email/classify");
    url
}

/// Stores the message of a receive request under a fresh identifier and
/// answers with that identifier.
pub fn receive_email(store: &mut EmailStore, request: &EmailReceiveRequest) -> (r:
    EmailReceiveResponse)
    ensures
        ids_unique(final(store)@),
        r.success,
        r.email_id is Some,
        r.message@ == "이메일 수신 성공"@,
        exists|t: i64|
            final(store)@ == put(
                old(store)@,
                #[trigger] arrival(
                    r.email_id->0@,
                    request.from@,
                    request.to@,
                    request.subject@,
                    request.body@,
                    t,
                ),
            ),
        holds_id(final(store)@, r.email_id->0@),
        final(store)@[index_of(final(store)@, r.email_id->0@)] == arrival(
            r.email_id->0@,
            request.from@,
            request.to@,
            request.subject@,
            request.body@,
            final(store)@[index_of(final(store)@, r.email_id->0@)].received_at,
        ),
{
    let id = process_incoming_email(
        store,
        request.from.as_str(),
        request.to.as_str(),
        request.subject.as_str(),
        request.body.as_str(),
    );
    EmailReceiveResponse::received(id)
}

} // verus!
