//! What the handler of Lightning events tells the user.

use crate::storage::NodeId;
use crate::text::{hex_encode, push_bool, push_decimal};
use vstd::prelude::*;

verus! {

#[derive(Debug, Clone, Copy, PartialEq, Eq, Structural)]
pub enum Level {
    Info,
    Error,
}

/// A line for the user.
#[derive(Debug)]
pub struct Report {
    pub level: Level,
    pub text: String,
}

/// What a `Report` holds.
pub struct ReportView {
    pub level: Level,
    pub text: Seq<char>,
}

impl View for Report {
    type V = ReportView;

    open spec fn view(&self) -> ReportView {
        ReportView { level: self.level, text: self.text@ }
    }
}

/// The texts of the reports.
pub open spec fn reports_view(reports: Seq<Report>) -> Seq<ReportView> {
    Seq::new(reports.len(), |i: int| reports[i]@)
}

pub open spec fn info(text: Seq<char>) -> ReportView {
    ReportView { level: Level::Info, text }
}

pub open spec fn error(text: Seq<char>) -> ReportView {
    ReportView { level: Level::Error, text }
}

/// A list without reports.
pub(crate) fn no_reports() -> (reports: Vec<Report>)
    ensures
        reports@.len() == 0,
        reports_view(reports@) == Seq::<ReportView>::empty(),
{
    let reports: Vec<Report> = Vec::new();
    assert(reports_view(reports@) =~= Seq::<ReportView>::empty());
    reports
}

/// Adds a report.
pub(crate) fn tell(reports: &mut Vec<Report>, level: Level, text: String)
    ensures
        reports_view(final(reports)@) == reports_view(old(reports)@).push(
            ReportView { level, text: text@ },
        ),
{
    let report = Report { level, text };
    reports.push(report);
    assert(reports_view(reports@) =~= reports_view(old(reports)@).push(report@));
}

/// A list with one report.
pub(crate) fn told(level: Level, text: String) -> (reports: Vec<Report>)
    ensures
        reports_view(reports@) == seq![ReportView { level, text: text@ }],
{
    let mut reports = no_reports();
    tell(&mut reports, level, text);
    assert(reports_view(reports@) =~= seq![ReportView { level, text: text@ }]);
    reports
}

/// `before`, the number in decimal, `after`.
pub(crate) fn with_number(before: &str, number: u64, after: &str) -> (text: String)
    ensures
        text@ == before@ + crate::text::decimal_text(number as nat) + after@,
{
    let mut text = before.to_owned();
    push_decimal(number, &mut text);
    text.append(after);
    text
}

/// `before`, the bytes in hexadecimal.
pub(crate) fn with_hex(before: &str, bytes: &[u8]) -> (text: String)
    ensures
        text@ == before@ + crate::text::hex_text(bytes@),
{
    before.to_owned().concat(hex_encode(bytes).as_str())
}

/// The keys of the nodes in hexadecimal.
pub open spec fn key_texts(path: Seq<NodeId>) -> Seq<Seq<char>> {
    Seq::new(path.len(), |i: int| crate::text::hex_text(path[i]@))
}

/// How a path is written: the keys of its nodes in a list.
pub open spec fn path_text(path: Seq<NodeId>) -> Seq<char> {
    "["@ + crate::text::quoted(key_texts(path)) + "]"@
}

/// Appends the path.
fn push_path(path: &[NodeId], buf: &mut String)
    ensures
        final(buf)@ == old(buf)@ + path_text(path@),
{
    let ghost texts = key_texts(path@);
    buf.append("[");
    let ghost start = buf@;
    let mut i: usize = 0;
    proof {
        assert(texts.take(0) =~= Seq::<Seq<char>>::empty());
        assert(buf@ =~= start + crate::text::quoted(texts.take(0)));
    }
    while i < path.len()
        invariant
            texts == key_texts(path@),
            i <= path@.len(),
            buf@ == start + crate::text::quoted(texts.take(i as int)),
        decreases path@.len() - i,
    {
        let text = path[i].to_text();
        proof {
            let next = texts.take(i + 1);
            assert(next.drop_last() =~= texts.take(i as int));
            assert(next.last() == text@);
        }
        if i == 0 {
            buf.append("\"");
        } else {
            buf.append(", \"");
        }
        buf.append(text.as_str());
        buf.append("\"");
        proof {
            assert(buf@ =~= start + crate::text::quoted(texts.take(i + 1)));
        }
        i = i + 1;
    }
    buf.append("]");
    proof {
        assert(texts.take(i as int) =~= texts);
        assert(buf@ =~= old(buf)@ + path_text(path@));
    }
}

/// What the user is told of a payment that was forwarded.
pub open spec fn forwarded_text(
    fee_earned_msat: Option<u64>,
    ticker: Seq<char>,
    claim_from_onchain_tx: bool,
) -> Seq<char> {
    let fee: nat = match fee_earned_msat {
        Some(fee) => fee as nat,
        None => 0,
    };
    "Recieved a fee of "@ + crate::text::decimal_text(fee)
        + " milli-satoshis for a successfully forwarded payment through our "@ + ticker
        + " lightning node. Was the forwarded HTLC claimed by our counterparty via an on-chain transaction?: "@
        + crate::text::bool_text(claim_from_onchain_tx)
}

pub(crate) fn tell_forwarded(
    fee_earned_msat: Option<u64>,
    ticker: &str,
    claim_from_onchain_tx: bool,
) -> (text: String)
    ensures
        text@ == forwarded_text(fee_earned_msat, ticker@, claim_from_onchain_tx),
{
    let fee: u64 = match fee_earned_msat {
        Some(fee) => fee,
        None => 0,
    };
    let mut text = with_number(
        "Recieved a fee of ",
        fee,
        " milli-satoshis for a successfully forwarded payment through our ",
    );
    text.append(ticker);
    text.append(
        " lightning node. Was the forwarded HTLC claimed by our counterparty via an on-chain transaction?: ",
    );
    push_bool(claim_from_onchain_tx, &mut text);
    text
}

/// What the user is told of a path along which a payment went.
pub open spec fn path_successful_text(
    path: Seq<NodeId>,
    payment_hash: Option<Seq<u8>>,
    payment_id: Seq<u8>,
) -> Seq<char> {
    let hash = match payment_hash {
        Some(hash) => crate::text::hex_text(hash),
        None => Seq::empty(),
    };
    "Payment path: "@ + path_text(path) + ", successful for payment hash: "@ + hash
        + ", payment id: "@ + crate::text::hex_text(payment_id)
}

pub(crate) fn tell_path_successful(
    path: &[NodeId],
    payment_hash: Option<&[u8]>,
    payment_id: &[u8],
) -> (text: String)
    ensures
        text@ == path_successful_text(
            path@,
            match payment_hash {
                Some(hash) => Some(hash@),
                None => None,
            },
            payment_id@,
        ),
{
    let mut text = "Payment path: ".to_owned();
    push_path(path, &mut text);
    text.append(", successful for payment hash: ");
    if let Some(hash) = payment_hash {
        text.append(hex_encode(hash).as_str());
    }
    text.append(", payment id: ");
    text.append(hex_encode(payment_id).as_str());
    proof {
        assert(text@ =~= path_successful_text(
            path@,
            match payment_hash {
                Some(hash) => Some(hash@),
                None => None,
            },
            payment_id@,
        ));
    }
    text
}

/// What the user is told of a path along which a payment did not go.
pub open spec fn path_failed_text(
    path: Seq<NodeId>,
    payment_hash: Seq<u8>,
    rejected_by_dest: bool,
    all_paths_failed: bool,
) -> Seq<char> {
    "Payment path: "@ + path_text(path) + ", failed for payment hash: "@ + crate::text::hex_text(
        payment_hash,
    ) + ", Was rejected by destination?: "@ + crate::text::bool_text(rejected_by_dest)
        + ", All paths failed?: "@ + crate::text::bool_text(all_paths_failed)
}

pub(crate) fn tell_path_failed(
    path: &[NodeId],
    payment_hash: &[u8],
    rejected_by_dest: bool,
    all_paths_failed: bool,
) -> (text: String)
    ensures
        text@ == path_failed_text(path@, payment_hash@, rejected_by_dest, all_paths_failed),
{
    let mut text = "Payment path: ".to_owned();
    push_path(path, &mut text);
    text.append(", failed for payment hash: ");
    text.append(hex_encode(payment_hash).as_str());
    text.append(", Was rejected by destination?: ");
    push_bool(rejected_by_dest, &mut text);
    text.append(", All paths failed?: ");
    push_bool(all_paths_failed, &mut text);
    text
}

/// A view shows the level and the text of every report, in their order.
pub proof fn report_views_hide_nothing(reports: Seq<Report>)
    ensures
        reports_view(reports).len() == reports.len(),
        forall|i: int|
            #![trigger reports[i]]
            #![trigger reports_view(reports)[i]]
            0 <= i < reports.len() ==> {
                &&& reports_view(reports)[i].level == reports[i].level
                &&& reports_view(reports)[i].text == reports[i].text@
            },
{
}

/// The keys of a path are told in full, in the order of the path.
pub proof fn paths_are_told_in_full(path: Seq<NodeId>)
    ensures
        key_texts(path).len() == path.len(),
        forall|i: int|
            0 <= i < path.len() ==> #[trigger] key_texts(path)[i] == crate::text::hex_text(
                path[i]@,
            ),
        path_text(path) == "["@ + crate::text::quoted(
            Seq::new(path.len(), |i: int| crate::text::hex_text(path[i]@)),
        ) + "]"@,
{
    assert(key_texts(path) =~= Seq::new(path.len(), |i: int| crate::text::hex_text(path[i]@)));
}

} // verus!
