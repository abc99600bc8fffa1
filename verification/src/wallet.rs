//! How a trade moves a wallet: which pair a symbol names, which balances a
//! fill debits and credits (and which of them carries the fee), and which
//! side of a position it counts towards. The amounts themselves are floating
//! point and are applied by the store.

use vstd::prelude::*;
use vstd::string::StringExecFns;
use crate::text::{str_chars, string_from_chars};

verus! {

/// The quote assets a symbol may end with, in the order they are tried.
pub open spec fn common_quotes() -> Seq<Seq<char>> {
    seq!["USDT"@, "USDC"@, "BTC"@, "ETH"@, "BNB"@]
}

/// Whether `s` ends with `p`.
pub open spec fn has_suffix(s: Seq<char>, p: Seq<char>) -> bool {
    p.len() <= s.len() && s.subrange(s.len() - p.len(), s.len() as int) == p
}

/// Index of the first quote that the symbol ends with, trying from `from`.
pub open spec fn first_quote_from(symbol: Seq<char>, from: int) -> Option<int>
    decreases 5 - from,
{
    if from < 0 || from >= 5 {
        None
    } else if has_suffix(symbol, common_quotes()[from]) {
        Some(from)
    } else {
        first_quote_from(symbol, from + 1)
    }
}

/// The base and quote asset of a symbol: the first common quote it ends
/// with, and what precedes it.
pub open spec fn symbol_pair(symbol: Seq<char>) -> Option<(Seq<char>, Seq<char>)> {
    match first_quote_from(symbol, 0) {
        Some(i) => Some((symbol.subrange(0, symbol.len() - common_quotes()[i].len()), common_quotes()[i])),
        None => None,
    }
}

fn ends_with(s: &Vec<char>, p: &str) -> (r: bool)
    ensures
        r == has_suffix(s@, p@),
{
    let pv = str_chars(p);
    if pv.len() > s.len() {
        return false;
    }
    let off = s.len() - pv.len();
    let mut i: usize = 0;
    while i < pv.len()
        invariant
            pv@ == p@,
            off + pv.len() == s.len(),
            i <= pv.len(),
            forall|k: int| 0 <= k < i ==> s@[off + k] == pv@[k],
        decreases pv.len() - i,
    {
        if s[off + i] != pv[i] {
            assert(s@.subrange(off as int, s@.len() as int)[i as int] != pv@[i as int]);
            assert(s@.subrange(off as int, s@.len() as int) != pv@);
            return false;
        }
        i += 1;
    }
    assert(s@.subrange(off as int, s@.len() as int) =~= pv@);
    true
}

/// Splits a trading symbol such as BTCUSDT into its base and quote asset.
/// The quotes USDT, USDC, BTC, ETH and BNB are tried in that order; a
/// symbol that ends with none of them is refused with
/// "Failed to parse symbol: {symbol}".
pub fn parse_symbol(symbol: &str) -> (r: Result<(String, String), String>)
    ensures
        match symbol_pair(symbol@) {
            Some((b, q)) => r matches Ok((base, quote)) && base@ == b && quote@ == q,
            None => r matches Err(m) && m@ == "Failed to parse symbol: "@ + symbol@,
        },
{
    let sv = str_chars(symbol);
    let quotes: [&str; 5] = ["USDT", "USDC", "BTC", "ETH", "BNB"];
    let mut i: usize = 0;
    while i < 5
        invariant
            0 <= i <= 5,
            sv@ == symbol@,
            quotes@.len() == 5,
            forall|k: int| 0 <= k < 5 ==> #[trigger] quotes@[k]@ == common_quotes()[k],
            first_quote_from(symbol@, 0) == first_quote_from(symbol@, i as int),
        decreases 5 - i,
    {
        let q = quotes[i];
        if ends_with(&sv, q) {
            let cut = sv.len() - str_chars(q).len();
            let mut base: Vec<char> = Vec::new();
            let mut j: usize = 0;
            while j < cut
                invariant
                    j <= cut,
                    cut <= sv.len(),
                    base@ == sv@.subrange(0, j as int),
                decreases cut - j,
            {
                base.push(sv[j]);
                j += 1;
                assert(base@ =~= sv@.subrange(0, j as int));
            }
            return Ok((string_from_chars(&base), String::from_str(q)));
        }
        i += 1;
    }
    Err(String::from_str("Failed to parse symbol: ").concat(symbol))
}

/// The side of the position a fill counts towards: LONG for a buy, SHORT otherwise.
pub open spec fn position_side_text(side: Seq<char>) -> Seq<char> {
    if side == "BUY"@ { "LONG"@ } else { "SHORT"@ }
}

/// The side of the position a fill counts towards.
pub fn position_side(side: &str) -> (s: &'static str)
    ensures
        s@ == position_side_text(side@),
{
    if crate::text::str_eq(side, "BUY") { "LONG" } else { "SHORT" }
}

/// The amount a balance moves by: the fill's quantity, or its notional
/// value (price times quantity).
#[derive(Clone, Copy, Debug, PartialEq, Eq, Structural)]
pub enum TradeAmount {
    Quantity,
    Notional,
}

/// One change of an available balance: the asset, whether the amount is
/// credited or debited, and whether the fee is taken from this balance too.
#[derive(Clone, Debug)]
pub struct BalanceUpdate {
    pub asset: String,
    pub credit: bool,
    pub amount: TradeAmount,
    pub pays_fee: bool,
}

/// The asset a fee is charged in: the one reported, else the quote asset
/// for a buy and the base asset for a sell.
pub open spec fn fee_asset_of(is_buy: bool, fee_asset: Option<Seq<char>>, base: Seq<char>, quote: Seq<char>) -> Seq<char> {
    match fee_asset {
        Some(f) => f,
        None => if is_buy { quote } else { base },
    }
}

/// A balance change as values: asset, credited or debited, amount, and
/// whether the fee is taken from it.
pub open spec fn update_view(u: BalanceUpdate) -> (Seq<char>, bool, TradeAmount, bool) {
    (u.asset@, u.credit, u.amount, u.pays_fee)
}

/// The two balance changes of a fill, in the order they are applied, or
/// none when the symbol does not split.
pub open spec fn fill_updates(side: Seq<char>, symbol: Seq<char>, fee_asset: Option<Seq<char>>)
    -> Option<((Seq<char>, bool, TradeAmount, bool), (Seq<char>, bool, TradeAmount, bool))> {
    match symbol_pair(symbol) {
        None => None,
        Some((b, q)) => {
            let is_buy = side == "BUY"@;
            let fa = fee_asset_of(is_buy, fee_asset, b, q);
            if is_buy {
                Some(((q, false, TradeAmount::Notional, fa == q), (b, true, TradeAmount::Quantity, fa == b)))
            } else {
                Some(((b, false, TradeAmount::Quantity, fa == b), (q, true, TradeAmount::Notional, fa == q)))
            }
        },
    }
}

/// The two balance changes of a fill, in the order they are applied. A buy
/// debits the notional from the quote asset, then credits the quantity to
/// the base asset; a sell debits the quantity from the base asset, then
/// credits the notional to the quote asset. The fee is taken from whichever
/// of the two balances is in the fee's asset.
pub fn balance_updates(side: &str, symbol: &str, fee_asset: Option<&str>) -> (r: Result<(BalanceUpdate, BalanceUpdate), String>)
    ensures
        symbol_pair(symbol@) is None <==> r is Err,
        r matches Err(m) ==> m@ == "Failed to parse symbol: "@ + symbol@,
        r matches Ok((first, second)) ==> {
            let (b, q) = symbol_pair(symbol@).unwrap();
            let is_buy = side@ == "BUY"@;
            let fa = fee_asset_of(is_buy, match fee_asset { Some(f) => Some(f@), None => None }, b, q);
            if is_buy {
                &&& first.asset@ == q && !first.credit && first.amount == TradeAmount::Notional && first.pays_fee == (fa == q)
                &&& second.asset@ == b && second.credit && second.amount == TradeAmount::Quantity && second.pays_fee == (fa == b)
            } else {
                &&& first.asset@ == b && !first.credit && first.amount == TradeAmount::Quantity && first.pays_fee == (fa == b)
                &&& second.asset@ == q && second.credit && second.amount == TradeAmount::Notional && second.pays_fee == (fa == q)
            }
        },
        match fill_updates(side@, symbol@, match fee_asset { Some(f) => Some(f@), None => None }) {
            None => r is Err,
            Some((x, y)) => r matches Ok((first, second)) && update_view(first) == x && update_view(second) == y,
        },
{
    let (base, quote) = match parse_symbol(symbol) {
        Ok(p) => p,
        Err(e) => return Err(e),
    };
    let is_buy = crate::text::str_eq(side, "BUY");
    let fa: String = match fee_asset {
        Some(f) => String::from_str(f),
        None => if is_buy { quote.clone() } else { base.clone() },
    };
    let fee_in_base = crate::text::str_eq(fa.as_str(), base.as_str());
    let fee_in_quote = crate::text::str_eq(fa.as_str(), quote.as_str());
    if is_buy {
        Ok((
            BalanceUpdate { asset: quote, credit: false, amount: TradeAmount::Notional, pays_fee: fee_in_quote },
            BalanceUpdate { asset: base, credit: true, amount: TradeAmount::Quantity, pays_fee: fee_in_base },
        ))
    } else {
        Ok((
            BalanceUpdate { asset: base, credit: false, amount: TradeAmount::Quantity, pays_fee: fee_in_base },
            BalanceUpdate { asset: quote, credit: true, amount: TradeAmount::Notional, pays_fee: fee_in_quote },
        ))
    }
}

/// A value bound to a wallet store statement: a field of the trade event,
/// or a text the statement compares with.
#[derive(Clone, Debug)]
pub enum TradeBind {
    WalletId,
    OrderId,
    TradeId,
    Price,
    Qty,
    Fee,
    /// The event's time in whole seconds.
    TsSeconds,
    Text(String),
    OptText(Option<String>),
}

/// A bound value as text.
pub enum TradeBindView {
    WalletId,
    OrderId,
    TradeId,
    Price,
    Qty,
    Fee,
    TsSeconds,
    Text(Seq<char>),
    OptText(Option<Seq<char>>),
}

pub open spec fn trade_bind_view(b: TradeBind) -> TradeBindView {
    match b {
        TradeBind::WalletId => TradeBindView::WalletId,
        TradeBind::OrderId => TradeBindView::OrderId,
        TradeBind::TradeId => TradeBindView::TradeId,
        TradeBind::Price => TradeBindView::Price,
        TradeBind::Qty => TradeBindView::Qty,
        TradeBind::Fee => TradeBindView::Fee,
        TradeBind::TsSeconds => TradeBindView::TsSeconds,
        TradeBind::Text(t) => TradeBindView::Text(t@),
        TradeBind::OptText(o) => TradeBindView::OptText(match o { Some(t) => Some(t@), None => None }),
    }
}

pub open spec fn trade_binds_view(v: Seq<TradeBind>) -> Seq<TradeBindView> {
    v.map_values(|b: TradeBind| trade_bind_view(b))
}

/// A statement of the SQLite wallet store with its values in binding order.
pub struct TradeStatement {
    pub sql: &'static str,
    pub binds: Vec<TradeBind>,
}

/// Appends a trade to the ledger, once per trade.
pub open spec fn ledger_insert_sql() -> Seq<char> {
    "INSERT OR IGNORE INTO s_ledger (wallet_id, order_id, trade_id, symbol, side, price, qty, fee, fee_asset, exchange_order_id, exchange_trade_id, ts)\n             VALUES (?, ?, ?, ?, ?, ?, ?, ?, ?, ?, ?, datetime(?, 'unixepoch'))"@
}

/// Debits the notional and a fee in the same asset from a balance.
pub open spec fn debit_notional_sql() -> Seq<char> {
    "INSERT INTO s_balances (wallet_id, asset, available, locked, updated_at)\n                 VALUES (?, ?, -(? * ? + CASE WHEN ? = ? THEN ? ELSE 0 END), 0, CURRENT_TIMESTAMP)\n                 ON CONFLICT (wallet_id, asset) DO UPDATE SET\n                     available = s_balances.available + EXCLUDED.available,\n                     updated_at = CURRENT_TIMESTAMP"@
}

/// Credits the quantity less a fee in the same asset to a balance.
pub open spec fn credit_quantity_sql() -> Seq<char> {
    "INSERT INTO s_balances (wallet_id, asset, available, locked, updated_at)\n                 VALUES (?, ?, ? - CASE WHEN ? = ? THEN ? ELSE 0 END, 0, CURRENT_TIMESTAMP)\n                 ON CONFLICT (wallet_id, asset) DO UPDATE SET\n                     available = s_balances.available + EXCLUDED.available,\n                     updated_at = CURRENT_TIMESTAMP"@
}

/// Debits the quantity and a fee in the same asset from a balance.
pub open spec fn debit_quantity_sql() -> Seq<char> {
    "INSERT INTO s_balances (wallet_id, asset, available, locked, updated_at)\n                 VALUES (?, ?, -(? + CASE WHEN ? = ? THEN ? ELSE 0 END), 0, CURRENT_TIMESTAMP)\n                 ON CONFLICT (wallet_id, asset) DO UPDATE SET\n                     available = s_balances.available + EXCLUDED.available,\n                     updated_at = CURRENT_TIMESTAMP"@
}

/// Credits the notional less a fee in the same asset to a balance.
pub open spec fn credit_notional_sql() -> Seq<char> {
    "INSERT INTO s_balances (wallet_id, asset, available, locked, updated_at)\n                 VALUES (?, ?, ? * ? - CASE WHEN ? = ? THEN ? ELSE 0 END, 0, CURRENT_TIMESTAMP)\n                 ON CONFLICT (wallet_id, asset) DO UPDATE SET\n                     available = s_balances.available + EXCLUDED.available,\n                     updated_at = CURRENT_TIMESTAMP"@
}

/// Recomputes a position from the ledger.
pub open spec fn position_sql() -> Seq<char> {
    "INSERT INTO s_positions (wallet_id, symbol, side, size, entry_price, realized_pnl, updated_at)\n             SELECT \n                 ? as wallet_id,\n                 ? as symbol,\n                 ? as side,\n                 SUM(CASE WHEN side = 'BUY' THEN qty ELSE -qty END) as size,\n                 SUM(CASE WHEN side = 'BUY' THEN price * qty ELSE 0 END) / NULLIF(SUM(CASE WHEN side = 'BUY' THEN qty ELSE 0 END), 0) as entry_price,\n                 0 as realized_pnl,\n                 CURRENT_TIMESTAMP as updated_at\n             FROM s_ledger\n             WHERE wallet_id = ? AND symbol = ?\n             GROUP BY wallet_id, symbol\n             ON CONFLICT (wallet_id, symbol, side) DO UPDATE SET\n                 size = EXCLUDED.size,\n                 entry_price = EXCLUDED.entry_price,\n                 updated_at = CURRENT_TIMESTAMP"@
}

/// Records the wallet's equity.
pub open spec fn equity_sql() -> Seq<char> {
    "INSERT INTO equity_snapshots (wallet_id, equity, ts)\n             SELECT \n                 ? as wallet_id,\n                 COALESCE(SUM(available + locked), 0) as equity,\n                 CURRENT_TIMESTAMP as ts\n             FROM s_balances\n             WHERE wallet_id = ?"@
}

fn opt_text(o: Option<&str>) -> (b: TradeBind)
    ensures
        trade_bind_view(b) == TradeBindView::OptText(match o { Some(t) => Some(t@), None => None }),
{
    match o {
        Some(t) => TradeBind::OptText(Some(String::from_str(t))),
        None => TradeBind::OptText(None),
    }
}

/// The statement that appends a trade to the SQLite ledger: the event's
/// ids, symbol, side, price, quantity, fee, fee asset, exchange ids and
/// time in seconds.
pub fn sqlite_ledger_insert(
    symbol: &str,
    side: &str,
    fee_asset: Option<&str>,
    exchange_order_id: Option<&str>,
    exchange_trade_id: Option<&str>,
) -> (st: TradeStatement)
    ensures
        st.sql@ == ledger_insert_sql(),
        trade_binds_view(st.binds@) == seq![
            TradeBindView::WalletId, TradeBindView::OrderId, TradeBindView::TradeId,
            TradeBindView::Text(symbol@), TradeBindView::Text(side@),
            TradeBindView::Price, TradeBindView::Qty, TradeBindView::Fee,
            TradeBindView::OptText(match fee_asset { Some(t) => Some(t@), None => None }),
            TradeBindView::OptText(match exchange_order_id { Some(t) => Some(t@), None => None }),
            TradeBindView::OptText(match exchange_trade_id { Some(t) => Some(t@), None => None }),
            TradeBindView::TsSeconds,
        ],
{
    let mut b: Vec<TradeBind> = Vec::new();
    b.push(TradeBind::WalletId);
    b.push(TradeBind::OrderId);
    b.push(TradeBind::TradeId);
    b.push(TradeBind::Text(String::from_str(symbol)));
    b.push(TradeBind::Text(String::from_str(side)));
    b.push(TradeBind::Price);
    b.push(TradeBind::Qty);
    b.push(TradeBind::Fee);
    b.push(opt_text(fee_asset));
    b.push(opt_text(exchange_order_id));
    b.push(opt_text(exchange_trade_id));
    b.push(TradeBind::TsSeconds);
    let st = TradeStatement { sql: "INSERT OR IGNORE INTO s_ledger (wallet_id, order_id, trade_id, symbol, side, price, qty, fee, fee_asset, exchange_order_id, exchange_trade_id, ts)\n             VALUES (?, ?, ?, ?, ?, ?, ?, ?, ?, ?, ?, datetime(?, 'unixepoch'))", binds: b };
    assert(trade_binds_view(st.binds@) =~= seq![
        TradeBindView::WalletId, TradeBindView::OrderId, TradeBindView::TradeId,
        TradeBindView::Text(symbol@), TradeBindView::Text(side@),
        TradeBindView::Price, TradeBindView::Qty, TradeBindView::Fee,
        TradeBindView::OptText(match fee_asset { Some(t) => Some(t@), None => None }),
        TradeBindView::OptText(match exchange_order_id { Some(t) => Some(t@), None => None }),
        TradeBindView::OptText(match exchange_trade_id { Some(t) => Some(t@), None => None }),
        TradeBindView::TsSeconds,
    ]);
    st
}

/// The two balance statements of a fill in the SQLite store, in order; each
/// compares the fee's asset (the reported one, else the default of the
/// side) with the balance's asset to decide whether the fee applies.
pub fn sqlite_balance_statements(side: &str, symbol: &str, fee_asset: Option<&str>)
    -> (r: Result<(TradeStatement, TradeStatement), String>)
    ensures
        symbol_pair(symbol@) is None <==> r is Err,
        r matches Err(m) ==> m@ == "Failed to parse symbol: "@ + symbol@,
        r matches Ok((first, second)) ==> {
            let (b, q) = symbol_pair(symbol@).unwrap();
            let is_buy = side@ == "BUY"@;
            let fa = fee_asset_of(is_buy, match fee_asset { Some(f) => Some(f@), None => None }, b, q);
            if is_buy {
                &&& first.sql@ == debit_notional_sql()
                &&& trade_binds_view(first.binds@) == seq![TradeBindView::WalletId, TradeBindView::Text(q),
                    TradeBindView::Price, TradeBindView::Qty, TradeBindView::Text(fa), TradeBindView::Text(q), TradeBindView::Fee]
                &&& second.sql@ == credit_quantity_sql()
                &&& trade_binds_view(second.binds@) == seq![TradeBindView::WalletId, TradeBindView::Text(b),
                    TradeBindView::Qty, TradeBindView::Text(fa), TradeBindView::Text(b), TradeBindView::Fee]
            } else {
                &&& first.sql@ == debit_quantity_sql()
                &&& trade_binds_view(first.binds@) == seq![TradeBindView::WalletId, TradeBindView::Text(b),
                    TradeBindView::Qty, TradeBindView::Text(fa), TradeBindView::Text(b), TradeBindView::Fee]
                &&& second.sql@ == credit_notional_sql()
                &&& trade_binds_view(second.binds@) == seq![TradeBindView::WalletId, TradeBindView::Text(q),
                    TradeBindView::Price, TradeBindView::Qty, TradeBindView::Text(fa), TradeBindView::Text(q), TradeBindView::Fee]
            }
        },
{
    let (base, quote) = match parse_symbol(symbol) {
        Ok(p) => p,
        Err(e) => return Err(e),
    };
    let is_buy = crate::text::str_eq(side, "BUY");
    let fa: String = match fee_asset {
        Some(f) => String::from_str(f),
        None => if is_buy { quote.clone() } else { base.clone() },
    };
    let mut notional: Vec<TradeBind> = Vec::new();
    notional.push(TradeBind::WalletId);
    notional.push(TradeBind::Text(quote.clone()));
    notional.push(TradeBind::Price);
    notional.push(TradeBind::Qty);
    notional.push(TradeBind::Text(fa.clone()));
    notional.push(TradeBind::Text(quote.clone()));
    notional.push(TradeBind::Fee);
    let mut quantity: Vec<TradeBind> = Vec::new();
    quantity.push(TradeBind::WalletId);
    quantity.push(TradeBind::Text(base.clone()));
    quantity.push(TradeBind::Qty);
    quantity.push(TradeBind::Text(fa.clone()));
    quantity.push(TradeBind::Text(base.clone()));
    quantity.push(TradeBind::Fee);
    assert(trade_binds_view(notional@) =~= seq![TradeBindView::WalletId, TradeBindView::Text(quote@),
        TradeBindView::Price, TradeBindView::Qty, TradeBindView::Text(fa@), TradeBindView::Text(quote@), TradeBindView::Fee]);
    assert(trade_binds_view(quantity@) =~= seq![TradeBindView::WalletId, TradeBindView::Text(base@),
        TradeBindView::Qty, TradeBindView::Text(fa@), TradeBindView::Text(base@), TradeBindView::Fee]);
    if is_buy {
        Ok((
            TradeStatement { sql: "INSERT INTO s_balances (wallet_id, asset, available, locked, updated_at)\n                 VALUES (?, ?, -(? * ? + CASE WHEN ? = ? THEN ? ELSE 0 END), 0, CURRENT_TIMESTAMP)\n                 ON CONFLICT (wallet_id, asset) DO UPDATE SET\n                     available = s_balances.available + EXCLUDED.available,\n                     updated_at = CURRENT_TIMESTAMP", binds: notional },
            TradeStatement { sql: "INSERT INTO s_balances (wallet_id, asset, available, locked, updated_at)\n                 VALUES (?, ?, ? - CASE WHEN ? = ? THEN ? ELSE 0 END, 0, CURRENT_TIMESTAMP)\n                 ON CONFLICT (wallet_id, asset) DO UPDATE SET\n                     available = s_balances.available + EXCLUDED.available,\n                     updated_at = CURRENT_TIMESTAMP", binds: quantity },
        ))
    } else {
        Ok((
            TradeStatement { sql: "INSERT INTO s_balances (wallet_id, asset, available, locked, updated_at)\n                 VALUES (?, ?, -(? + CASE WHEN ? = ? THEN ? ELSE 0 END), 0, CURRENT_TIMESTAMP)\n                 ON CONFLICT (wallet_id, asset) DO UPDATE SET\n                     available = s_balances.available + EXCLUDED.available,\n                     updated_at = CURRENT_TIMESTAMP", binds: quantity },
            TradeStatement { sql: "INSERT INTO s_balances (wallet_id, asset, available, locked, updated_at)\n                 VALUES (?, ?, ? * ? - CASE WHEN ? = ? THEN ? ELSE 0 END, 0, CURRENT_TIMESTAMP)\n                 ON CONFLICT (wallet_id, asset) DO UPDATE SET\n                     available = s_balances.available + EXCLUDED.available,\n                     updated_at = CURRENT_TIMESTAMP", binds: notional },
        ))
    }
}

/// The statement that recomputes the position of a fill's wallet and
/// symbol on the side the fill counts towards.
pub fn sqlite_position_statement(symbol: &str, side: &str) -> (st: TradeStatement)
    ensures
        st.sql@ == position_sql(),
        trade_binds_view(st.binds@) == seq![TradeBindView::WalletId, TradeBindView::Text(symbol@),
            TradeBindView::Text(position_side_text(side@)), TradeBindView::WalletId, TradeBindView::Text(symbol@)],
{
    let mut b: Vec<TradeBind> = Vec::new();
    b.push(TradeBind::WalletId);
    b.push(TradeBind::Text(String::from_str(symbol)));
    b.push(TradeBind::Text(String::from_str(position_side(side))));
    b.push(TradeBind::WalletId);
    b.push(TradeBind::Text(String::from_str(symbol)));
    let st = TradeStatement { sql: "INSERT INTO s_positions (wallet_id, symbol, side, size, entry_price, realized_pnl, updated_at)\n             SELECT \n                 ? as wallet_id,\n                 ? as symbol,\n                 ? as side,\n                 SUM(CASE WHEN side = 'BUY' THEN qty ELSE -qty END) as size,\n                 SUM(CASE WHEN side = 'BUY' THEN price * qty ELSE 0 END) / NULLIF(SUM(CASE WHEN side = 'BUY' THEN qty ELSE 0 END), 0) as entry_price,\n                 0 as realized_pnl,\n                 CURRENT_TIMESTAMP as updated_at\n             FROM s_ledger\n             WHERE wallet_id = ? AND symbol = ?\n             GROUP BY wallet_id, symbol\n             ON CONFLICT (wallet_id, symbol, side) DO UPDATE SET\n                 size = EXCLUDED.size,\n                 entry_price = EXCLUDED.entry_price,\n                 updated_at = CURRENT_TIMESTAMP", binds: b };
    assert(trade_binds_view(st.binds@) =~= seq![TradeBindView::WalletId, TradeBindView::Text(symbol@),
        TradeBindView::Text(position_side_text(side@)), TradeBindView::WalletId, TradeBindView::Text(symbol@)]);
    st
}

/// The statement that records the equity of a fill's wallet.
pub fn sqlite_equity_statement() -> (st: TradeStatement)
    ensures
        st.sql@ == equity_sql(),
        trade_binds_view(st.binds@) == seq![TradeBindView::WalletId, TradeBindView::WalletId],
{
    let mut b: Vec<TradeBind> = Vec::new();
    b.push(TradeBind::WalletId);
    b.push(TradeBind::WalletId);
    let st = TradeStatement { sql: "INSERT INTO equity_snapshots (wallet_id, equity, ts)\n             SELECT \n                 ? as wallet_id,\n                 COALESCE(SUM(available + locked), 0) as equity,\n                 CURRENT_TIMESTAMP as ts\n             FROM s_balances\n             WHERE wallet_id = ?", binds: b };
    assert(trade_binds_view(st.binds@) =~= seq![TradeBindView::WalletId, TradeBindView::WalletId]);
    st
}

/// Splitting a symbol gives back the symbol when base and quote are joined again.
pub proof fn lemma_symbol_pair_joins(symbol: Seq<char>)
    requires
        symbol_pair(symbol) is Some,
    ensures
        symbol_pair(symbol).unwrap().0 + symbol_pair(symbol).unwrap().1 == symbol,
        common_quotes().contains(symbol_pair(symbol).unwrap().1),
{
    lemma_first_quote_has_suffix(symbol, 0);
    let i = first_quote_from(symbol, 0).unwrap();
    let q = common_quotes()[i];
    assert(symbol.subrange(0, symbol.len() - q.len()) + q =~= symbol);
    assert(common_quotes()[i] == q);
}

proof fn lemma_first_quote_has_suffix(symbol: Seq<char>, from: int)
    ensures
        first_quote_from(symbol, from) matches Some(i) ==> 0 <= i < 5 && has_suffix(symbol, common_quotes()[i]),
    decreases 5 - from,
{
    if 0 <= from < 5 && !has_suffix(symbol, common_quotes()[from]) {
        lemma_first_quote_has_suffix(symbol, from + 1);
    }
}

proof fn lemma_suffix_of_join(b: Seq<char>, q: Seq<char>)
    ensures
        has_suffix(b + q, q),
        (b + q).subrange(0, (b + q).len() - q.len()) == b,
{
    assert((b + q).subrange((b + q).len() - q.len(), (b + q).len() as int) =~= q);
    assert((b + q).subrange(0, (b + q).len() - q.len()) =~= b);
}

/// A symbol splits at the first of the quotes USDT, USDC, BTC, ETH and BNB,
/// tried in that order, that it ends with: base plus that quote gives back
/// base and quote. A symbol that ends with none of them does not split.
pub proof fn lemma_symbol_quotes(b: Seq<char>, s: Seq<char>)
    ensures
        symbol_pair(b + "USDT"@) == Some((b, "USDT"@)),
        !has_suffix(b + "USDC"@, "USDT"@) ==> symbol_pair(b + "USDC"@) == Some((b, "USDC"@)),
        !has_suffix(b + "BTC"@, "USDT"@) && !has_suffix(b + "BTC"@, "USDC"@)
            ==> symbol_pair(b + "BTC"@) == Some((b, "BTC"@)),
        !has_suffix(b + "ETH"@, "USDT"@) && !has_suffix(b + "ETH"@, "USDC"@) && !has_suffix(b + "ETH"@, "BTC"@)
            ==> symbol_pair(b + "ETH"@) == Some((b, "ETH"@)),
        !has_suffix(b + "BNB"@, "USDT"@) && !has_suffix(b + "BNB"@, "USDC"@) && !has_suffix(b + "BNB"@, "BTC"@)
            && !has_suffix(b + "BNB"@, "ETH"@) ==> symbol_pair(b + "BNB"@) == Some((b, "BNB"@)),
        !has_suffix(s, "USDT"@) && !has_suffix(s, "USDC"@) && !has_suffix(s, "BTC"@) && !has_suffix(s, "ETH"@)
            && !has_suffix(s, "BNB"@) ==> symbol_pair(s) is None,
{
    lemma_suffix_of_join(b, "USDT"@);
    lemma_suffix_of_join(b, "USDC"@);
    lemma_suffix_of_join(b, "BTC"@);
    lemma_suffix_of_join(b, "ETH"@);
    lemma_suffix_of_join(b, "BNB"@);
    reveal_with_fuel(first_quote_from, 6);
}

/// A fill that settles moves exactly the symbol's base and quote balances:
/// it debits one and credits the other. A buy pays the notional out of the
/// quote balance and receives the quantity into the base balance; a sell
/// pays the quantity out of the base balance and receives the notional into
/// the quote balance. A balance carries the fee exactly when it is in the
/// fee's asset; with no fee asset reported, the balance that is debited
/// carries it.
pub proof fn lemma_fill_updates(side: Seq<char>, symbol: Seq<char>, fee_asset: Option<Seq<char>>)
    ensures
        (fill_updates(side, symbol, fee_asset) is Some) == (symbol_pair(symbol) is Some),
        fill_updates(side, symbol, fee_asset) matches Some((x, y)) ==> {
            let (b, q) = symbol_pair(symbol).unwrap();
            &&& !x.1 && y.1
            &&& x.2 != y.2
            &&& (side == "BUY"@ ==> x.0 == q && x.2 == TradeAmount::Notional && y.0 == b && y.2 == TradeAmount::Quantity)
            &&& (side != "BUY"@ ==> x.0 == b && x.2 == TradeAmount::Quantity && y.0 == q && y.2 == TradeAmount::Notional)
            &&& (fee_asset matches Some(f) ==> x.3 == (x.0 == f) && y.3 == (y.0 == f))
            &&& (fee_asset is None ==> x.3)
        },
{
}

/// A buy counts towards the long side and every other fill towards the short
/// side, so a buy and a sell never count towards the same side.
pub proof fn lemma_position_sides(side: Seq<char>)
    ensures
        position_side_text("BUY"@) == "LONG"@,
        side != "BUY"@ ==> position_side_text(side) == "SHORT"@,
        position_side_text("BUY"@) != position_side_text("SELL"@),
{
    reveal_strlit("LONG");
    reveal_strlit("SHORT");
    reveal_strlit("BUY");
    reveal_strlit("SELL");
    assert("LONG"@.len() != "SHORT"@.len());
    assert("SELL"@ != "BUY"@) by {
        assert("SELL"@[0] != "BUY"@[0]);
    }
}

} // verus!
