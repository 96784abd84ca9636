//! Log protocol: emitting records, querying the log service's history and
//! subscribing to its live stream.
use vstd::prelude::*;

use crate::abi::{LogDomain, LogEvent, LogQueryStatus, LogSeverity, LogStatus, LogTag, ServiceId};
use crate::decode::{domain_from_word, event_from_word, service_id_from_word, severity_from_word};
use crate::error::{Error, Result};
use crate::message::{has_shape, is_request, reply_shape, request1, request_words, sends, Exchange, RawMessage};
use crate::types::LogRecord;

verus! {

/// Filter word of a subscription that accepts every source or domain.
pub const LOG_FILTER_ANY: u64 = 0xffff_ffff_ffff_ffff;

/// The words of a log record: source, severity, domain, event and three
/// arguments.
pub open spec fn record_words(source: ServiceId, severity: LogSeverity, domain: LogDomain, event: LogEvent, arg0: u64, arg1: u64, arg2: u64) -> Seq<u64> {
    seq![source.spec_code() as u64, severity.spec_code() as u64, domain.spec_code() as u64, event.spec_code() as u64, arg0, arg1, arg2]
}

/// The record message with two arguments (the third is zero); it is sent
/// without waiting for an answer.
pub fn send_log_record(source: ServiceId, severity: LogSeverity, domain: LogDomain, event: LogEvent, arg0: u64, arg1: u64) -> (m: RawMessage)
    ensures
        is_request(m, LogTag::Record.spec_code(), record_words(source, severity, domain, event, arg0, arg1, 0)),
{
    send_log_record_ex(source, severity, domain, event, arg0, arg1, 0)
}

/// The record message with three arguments; it is sent without waiting for
/// an answer.
pub fn send_log_record_ex(source: ServiceId, severity: LogSeverity, domain: LogDomain, event: LogEvent, arg0: u64, arg1: u64, arg2: u64) -> (m: RawMessage)
    ensures
        is_request(m, LogTag::Record.spec_code(), record_words(source, severity, domain, event, arg0, arg1, arg2)),
{
    let ws: [u64; 7] = [source.code() as u64, severity.code() as u64, domain.code() as u64, event.code() as u64, arg0, arg1, arg2];
    assert(ws@ =~= record_words(source, severity, domain, event, arg0, arg1, arg2));
    request_words(LogTag::Record.code(), ws.as_slice())
}

/// What a query-info reply decodes to: its first two words.
pub open spec fn query_info_result(r: RawMessage) -> Result<(u64, u64)> {
    if !reply_shape(r, LogTag::QueryInfoReply.spec_code(), 2) {
        Err(Error::InvalidArgument)
    } else {
        Ok((r.words[0], r.words[1]))
    }
}

/// Step of asking the log service for its history bounds (two words, as
/// the service reports them).
pub fn log_query_info(reply: Option<&RawMessage>) -> (step: Exchange<(u64, u64)>)
    ensures
        reply is None ==> sends(step, LogTag::QueryInfoRequest.spec_code(), Seq::empty()),
        reply matches Some(r) ==> step == Exchange::Done(query_info_result(*r)),
{
    match reply {
        None => Exchange::Send(RawMessage::empty(LogTag::QueryInfoRequest.code())),
        Some(r) => if has_shape(r, LogTag::QueryInfoReply.code(), 2) {
            Exchange::Done(Ok((r.words[0], r.words[1])))
        } else {
            Exchange::Done(Err(Error::InvalidArgument))
        },
    }
}

/// The log record carried in the nine words from `b`.
pub open spec fn record_at(r: RawMessage, b: int) -> LogRecord {
    LogRecord {
        sequence: r.words[b],
        tick: r.words[b + 1],
        source: service_id_from_word(r.words[b + 2]),
        severity: severity_from_word(r.words[b + 3]),
        domain: domain_from_word(r.words[b + 4]),
        event: event_from_word(r.words[b + 5]),
        arg0: r.words[b + 6],
        arg1: r.words[b + 7],
        arg2: r.words[b + 8],
    }
}

fn read_record(r: &RawMessage, b: usize) -> (rec: LogRecord)
    requires
        b + 8 < 16,
    ensures
        rec == record_at(*r, b as int),
{
    LogRecord {
        sequence: r.words[b],
        tick: r.words[b + 1],
        source: service_id_from_word(r.words[b + 2]),
        severity: severity_from_word(r.words[b + 3]),
        domain: domain_from_word(r.words[b + 4]),
        event: event_from_word(r.words[b + 5]),
        arg0: r.words[b + 6],
        arg1: r.words[b + 7],
        arg2: r.words[b + 8],
    }
}

/// What a query-record reply decodes to: `None` when the log no longer (or
/// not yet) holds that record, else the record in words 1 to 9.
pub open spec fn query_record_result(r: RawMessage) -> Result<Option<LogRecord>> {
    if !reply_shape(r, LogTag::QueryRecordReply.spec_code(), 2) {
        Err(Error::InvalidArgument)
    } else if r.words[0] as u32 == LogQueryStatus::NotFound.spec_code() {
        Ok(None)
    } else if r.word_count < 10 {
        Err(Error::InvalidArgument)
    } else {
        Ok(Some(record_at(r, 1)))
    }
}

/// Step of reading log record `sequence` from the log service's history.
pub fn log_query_record(sequence: u64, reply: Option<&RawMessage>) -> (step: Exchange<Option<LogRecord>>)
    ensures
        reply is None ==> sends(step, LogTag::QueryRecordRequest.spec_code(), seq![sequence]),
        reply matches Some(r) ==> step == Exchange::Done(query_record_result(*r)),
{
    let r = match reply {
        None => return Exchange::Send(request1(LogTag::QueryRecordRequest.code(), sequence)),
        Some(r) => r,
    };
    if !has_shape(r, LogTag::QueryRecordReply.code(), 2) {
        return Exchange::Done(Err(Error::InvalidArgument));
    }
    if r.words[0] as u32 == LogQueryStatus::NotFound.code() {
        return Exchange::Done(Ok(None));
    }
    if r.word_count < 10 {
        return Exchange::Done(Err(Error::InvalidArgument));
    }
    Exchange::Done(Ok(Some(read_record(r, 1))))
}

/// The word of an optional subscription filter: the filter's code, or
/// `LOG_FILTER_ANY`.
pub open spec fn filter_word(code: Option<u32>) -> u64 {
    match code {
        Some(c) => c as u64,
        None => LOG_FILTER_ANY,
    }
}

/// The words of a subscribe request.
pub open spec fn subscribe_words(minimum_severity: LogSeverity, source_filter: Option<ServiceId>, domain_filter: Option<LogDomain>) -> Seq<u64> {
    seq![
        minimum_severity.spec_code() as u64,
        filter_word(match source_filter { Some(s) => Some(s.spec_code()), None => None }),
        filter_word(match domain_filter { Some(d) => Some(d.spec_code()), None => None }),
    ]
}

/// What a subscribe reply decodes to: the subscription stands on success;
/// a busy service answers `Busy`; any other answer is `InvalidArgument`.
pub open spec fn subscribe_result(r: RawMessage) -> Result<()> {
    let code = r.words[0] as u32;
    if !reply_shape(r, LogTag::SubscribeReply.spec_code(), 1) {
        Err(Error::InvalidArgument)
    } else if code == LogStatus::Success.spec_code() {
        Ok(())
    } else if code == LogStatus::Busy.spec_code() {
        Err(Error::Busy)
    } else {
        Err(Error::InvalidArgument)
    }
}

/// Step of subscribing to the log stream: records of at least
/// `minimum_severity`, from `source_filter` and in `domain_filter` where
/// those are given. The caller attaches two endpoints to the request, the
/// sending end of the channel the records will arrive on and then its reply
/// endpoint; on an error outcome it closes the receiving end of the record
/// channel.
pub fn log_subscribe(minimum_severity: LogSeverity, source_filter: Option<ServiceId>, domain_filter: Option<LogDomain>, reply: Option<&RawMessage>) -> (step: Exchange<()>)
    ensures
        reply is None ==> sends(step, LogTag::SubscribeRequest.spec_code(), subscribe_words(minimum_severity, source_filter, domain_filter)),
        reply matches Some(r) ==> step == Exchange::Done(subscribe_result(*r)),
{
    let r = match reply {
        None => {
            let source = match source_filter {
                Some(s) => s.code() as u64,
                None => LOG_FILTER_ANY,
            };
            let domain = match domain_filter {
                Some(d) => d.code() as u64,
                None => LOG_FILTER_ANY,
            };
            let ws: [u64; 3] = [minimum_severity.code() as u64, source, domain];
            assert(ws@ =~= subscribe_words(minimum_severity, source_filter, domain_filter));
            return Exchange::Send(request_words(LogTag::SubscribeRequest.code(), ws.as_slice()));
        },
        Some(r) => r,
    };
    if !has_shape(r, LogTag::SubscribeReply.code(), 1) {
        return Exchange::Done(Err(Error::InvalidArgument));
    }
    let code = r.words[0] as u32;
    if code == LogStatus::Success.code() {
        Exchange::Done(Ok(()))
    } else if code == LogStatus::Busy.code() {
        Exchange::Done(Err(Error::Busy))
    } else {
        Exchange::Done(Err(Error::InvalidArgument))
    }
}

/// What a streamed record message decodes to: the record in words 0 to 8.
pub open spec fn stream_record_result(m: RawMessage) -> Result<LogRecord> {
    if !reply_shape(m, LogTag::StreamRecord.spec_code(), 9) {
        Err(Error::InvalidArgument)
    } else {
        Ok(record_at(m, 0))
    }
}

/// Decodes a record received on a subscription channel.
pub fn log_receive_record(m: &RawMessage) -> (rec: Result<LogRecord>)
    ensures
        rec == stream_record_result(*m),
{
    if !has_shape(m, LogTag::StreamRecord.code(), 9) {
        return Err(Error::InvalidArgument);
    }
    Ok(read_record(m, 0))
}

} // verus!
