//! The order gateway: an order, the request that places it, and the reply
//! that acknowledges it with its fills.
use vstd::prelude::*;
use crate::endpoint::{stock_path, stock_url};
use crate::error::{is_shape_error, PayloadError, StockfighterErr};
use crate::json::{
    bool_at, bool_or_false, decode_all, field, fields_view, int_at, int_or_zero, items_view, json_text,
    json_written, lemma_array_view, lemma_field_found, lemma_decode_all_in_order, lemma_object_view,
    read_bool, read_bool_or_false, read_int, read_int_or_zero, read_text, read_text_or_empty,
    text_at, text_or_empty, get_field, Json, JsonView,
};

verus! {

/// The kinds of order a venue takes.
#[derive(Debug, Clone, Copy, PartialEq, Eq, Structural)]
pub enum OrderType {
    Limit,
    Market,
    FillOrKill,
    ImmediateOrCancel,
}

pub open spec fn order_type_name(t: OrderType) -> Seq<char> {
    match t {
        OrderType::Limit => "limit"@,
        OrderType::Market => "market"@,
        OrderType::FillOrKill => "fill-or-kill"@,
        OrderType::ImmediateOrCancel => "immediate-or-cancel"@,
    }
}

/// The kind of order that a wire name stands for.
pub open spec fn order_type_named(name: Seq<char>) -> Option<OrderType> {
    if name == "limit"@ {
        Some(OrderType::Limit)
    } else if name == "market"@ {
        Some(OrderType::Market)
    } else if name == "fill-or-kill"@ {
        Some(OrderType::FillOrKill)
    } else if name == "immediate-or-cancel"@ {
        Some(OrderType::ImmediateOrCancel)
    } else {
        None
    }
}

/// Each kind of order is named by its own wire name.
pub proof fn lemma_order_type_names(t: OrderType)
    ensures
        order_type_named(order_type_name(t)) == Some(t),
{
    reveal_strlit("limit");
    reveal_strlit("market");
    reveal_strlit("fill-or-kill");
    reveal_strlit("immediate-or-cancel");
    assert("limit"@.len() == 5 && "market"@.len() == 6);
    assert("fill-or-kill"@.len() == 12 && "immediate-or-cancel"@.len() == 19);
}

impl OrderType {
    /// The kind of order that `name` stands for on the wire, if any.
    pub fn from_wire_name(name: &str) -> (r: Option<OrderType>)
        ensures
            r == order_type_named(name@),
    {
        let name = name.to_owned();
        if name == String::from_str("limit") {
            Some(OrderType::Limit)
        } else if name == String::from_str("market") {
            Some(OrderType::Market)
        } else if name == String::from_str("fill-or-kill") {
            Some(OrderType::FillOrKill)
        } else if name == String::from_str("immediate-or-cancel") {
            Some(OrderType::ImmediateOrCancel)
        } else {
            None
        }
    }

    /// The name of this kind of order on the wire.
    pub fn wire_name(&self) -> (r: String)
        ensures
            r@ == order_type_name(*self),
    {
        match self {
            OrderType::Limit => String::from_str("limit"),
            OrderType::Market => String::from_str("market"),
            OrderType::FillOrKill => String::from_str("fill-or-kill"),
            OrderType::ImmediateOrCancel => String::from_str("immediate-or-cancel"),
        }
    }
}

/// An order to be placed: who places it, where, on what, at what price, how
/// many, which way and of what kind.
#[derive(Debug)]
pub struct Order {
    pub account: String,
    pub venue: String,
    pub stock: String,
    pub price: i32,
    pub qty: i32,
    pub direction: String,
    pub order_type: OrderType,
}

pub struct OrderView {
    pub account: Seq<char>,
    pub venue: Seq<char>,
    pub stock: Seq<char>,
    pub price: i32,
    pub qty: i32,
    pub direction: Seq<char>,
    pub order_type: OrderType,
}

impl View for Order {
    type V = OrderView;

    open spec fn view(&self) -> OrderView {
        OrderView {
            account: self.account@,
            venue: self.venue@,
            stock: self.stock@,
            price: self.price,
            qty: self.qty,
            direction: self.direction@,
            order_type: self.order_type,
        }
    }
}

/// The JSON object that states an order, its members in this order.
pub open spec fn order_json(o: OrderView) -> JsonView {
    JsonView::Object(
        seq![
            ("account"@, JsonView::Str(o.account)),
            ("venue"@, JsonView::Str(o.venue)),
            ("stock"@, JsonView::Str(o.stock)),
            ("price"@, JsonView::Number(Some(o.price as int))),
            ("qty"@, JsonView::Number(Some(o.qty as int))),
            ("direction"@, JsonView::Str(o.direction)),
            ("orderType"@, JsonView::Str(order_type_name(o.order_type))),
        ],
    )
}

/// An order read from JSON: every member must be present, and `orderType`
/// must name a kind of order.
pub open spec fn order_of(j: JsonView) -> Option<OrderView> {
    match j {
        JsonView::Object(fs) => {
            let account = text_at(fs, "account"@);
            let venue = text_at(fs, "venue"@);
            let stock = text_at(fs, "stock"@);
            let price = int_at(fs, "price"@);
            let qty = int_at(fs, "qty"@);
            let direction = text_at(fs, "direction"@);
            let order_type = match text_at(fs, "orderType"@) {
                Some(name) => order_type_named(name),
                None => None,
            };
            if account is Some && venue is Some && stock is Some && price is Some && qty is Some
                && direction is Some && order_type is Some {
                Some(
                    OrderView {
                        account: account->0,
                        venue: venue->0,
                        stock: stock->0,
                        price: price->0,
                        qty: qty->0,
                        direction: direction->0,
                        order_type: order_type->0,
                    },
                )
            } else {
                None
            }
        },
        _ => None,
    }
}

/// Reading back the JSON object that states an order gives the same order,
/// every field included.
pub proof fn lemma_order_round_trip(o: OrderView)
    ensures
        order_of(order_json(o)) == Some(o),
{
    reveal_strlit("account");
    reveal_strlit("venue");
    reveal_strlit("stock");
    reveal_strlit("price");
    reveal_strlit("qty");
    reveal_strlit("direction");
    reveal_strlit("orderType");
    let fs = order_json(o)->Object_0;
    assert("account"@.len() == 7 && "qty"@.len() == 3);
    assert("venue"@.len() == 5 && "stock"@.len() == 5 && "price"@.len() == 5);
    assert("direction"@.len() == 9 && "orderType"@.len() == 9);
    assert("venue"@[0] == 'v' && "stock"@[0] == 's' && "price"@[0] == 'p');
    assert("direction"@[0] == 'd' && "orderType"@[0] == 'o');
    lemma_field_found(fs, "account"@, 0);
    lemma_field_found(fs, "venue"@, 1);
    lemma_field_found(fs, "stock"@, 2);
    lemma_field_found(fs, "price"@, 3);
    lemma_field_found(fs, "qty"@, 4);
    lemma_field_found(fs, "direction"@, 5);
    lemma_field_found(fs, "orderType"@, 6);
    lemma_order_type_names(o.order_type);
}

fn entry(key: &str, value: Json) -> (r: (String, Json))
    ensures
        r.0@ == key@,
        r.1 == value,
{
    (String::from_str(key), value)
}

impl Order {
    pub fn new(
        account: String,
        venue: String,
        stock: String,
        price: i32,
        qty: i32,
        direction: String,
        order_type: OrderType,
    ) -> (r: Order)
        ensures
            r@ == (OrderView {
                account: account@,
                venue: venue@,
                stock: stock@,
                price,
                qty,
                direction: direction@,
                order_type,
            }),
    {
        Order { account, venue, stock, price, qty, direction, order_type }
    }

    /// The JSON object that states this order.
    pub fn to_json(&self) -> (r: Json)
        ensures
            r@ == order_json(self@),
    {
        let mut fields: Vec<(String, Json)> = Vec::new();
        fields.push(entry("account", Json::Str(self.account.clone())));
        fields.push(entry("venue", Json::Str(self.venue.clone())));
        fields.push(entry("stock", Json::Str(self.stock.clone())));
        fields.push(entry("price", Json::Number(Some(self.price as i64))));
        fields.push(entry("qty", Json::Number(Some(self.qty as i64))));
        fields.push(entry("direction", Json::Str(self.direction.clone())));
        fields.push(entry("orderType", Json::Str(self.order_type.wire_name())));
        proof {
            lemma_object_view(fields);
            assert(fields_view(fields@) =~= order_json(self@)->Object_0);
        }
        Json::Object(fields)
    }

    /// Reads an order from JSON.
    pub fn from_json(j: &Json) -> (r: Option<Order>)
        ensures
            match r {
                Some(o) => order_of(j@) == Some(o@),
                None => order_of(j@) is None,
            },
    {
        match j {
            Json::Object(fields) => {
                proof {
                    lemma_object_view(*fields);
                }
                let account = read_text(fields, "account");
                let venue = read_text(fields, "venue");
                let stock = read_text(fields, "stock");
                let price = read_int(fields, "price");
                let qty = read_int(fields, "qty");
                let direction = read_text(fields, "direction");
                let order_type = match read_text(fields, "orderType") {
                    Some(name) => OrderType::from_wire_name(name.as_str()),
                    None => None,
                };
                match (account, venue, stock, price, qty, direction, order_type) {
                    (
                        Some(account),
                        Some(venue),
                        Some(stock),
                        Some(price),
                        Some(qty),
                        Some(direction),
                        Some(order_type),
                    ) => Some(Order { account, venue, stock, price, qty, direction, order_type }),
                    _ => None,
                }
            },
            _ => None,
        }
    }

    /// The body of the request that places this order: the JSON text of
    /// `to_json`. Encoding always succeeds.
    pub fn encode_order(&self) -> (r: Result<String, StockfighterErr>)
        ensures
            r matches Ok(text) && text@ == json_written(order_json(self@)),
    {
        match self.to_json().write() {
            Ok(text) => Ok(text),
            Err(e) => Err(StockfighterErr::Serde(e)),
        }
    }

    /// The URL to which this order is posted.
    pub fn order_url(&self) -> (r: String)
        ensures
            r@ == stock_path(self.venue@, self.stock@) + "/orders"@,
    {
        stock_url(self.venue.as_str(), self.stock.as_str(), "/orders")
    }

    /// Takes in the outcome of posting `encode_order` to `order_url`: a
    /// transport failure is handed back, an order reply is read in full, and
    /// any other payload is a `Serde` error.
    pub fn process_order(&self, response: Result<String, StockfighterErr>) -> (r: Result<
        OrderResponse,
        StockfighterErr,
    >)
        ensures
            match response {
                Err(e) => r == Err::<OrderResponse, StockfighterErr>(e),
                Ok(body) => match json_text(body@) {
                    None => r matches Err(StockfighterErr::Serde(PayloadError::Json(_))),
                    Some(j) => match order_response_of(j) {
                        Some(v) => r matches Ok(reply) && reply@ == v,
                        None => r matches Err(e) && is_shape_error(e, "OrderResponse"@, body@),
                    },
                },
            },
    {
        let body = match response {
            Ok(body) => body,
            Err(e) => return Err(e),
        };
        let doc = match Json::read(body.as_str()) {
            Ok(doc) => doc,
            Err(e) => return Err(StockfighterErr::Serde(e)),
        };
        match OrderResponse::from_json(&doc) {
            Some(reply) => Ok(reply),
            None => Err(StockfighterErr::shape("OrderResponse", body)),
        }
    }
}

/// One execution of an order.
#[derive(Debug)]
pub struct OrderFill {
    pub price: i32,
    pub qty: i32,
    pub ts: String,
}

pub struct OrderFillView {
    pub price: i32,
    pub qty: i32,
    pub ts: Seq<char>,
}

impl View for OrderFill {
    type V = OrderFillView;

    open spec fn view(&self) -> OrderFillView {
        OrderFillView { price: self.price, qty: self.qty, ts: self.ts@ }
    }
}

/// A fill: each member may be left out.
pub open spec fn fill_of(j: JsonView) -> Option<OrderFillView> {
    match j {
        JsonView::Object(fs) => {
            let price = int_or_zero(fs, "price"@);
            let qty = int_or_zero(fs, "qty"@);
            let ts = text_or_empty(fs, "ts"@);
            if price is Some && qty is Some && ts is Some {
                Some(OrderFillView { price: price->0, qty: qty->0, ts: ts->0 })
            } else {
                None
            }
        },
        _ => None,
    }
}

pub open spec fn fill_decoder() -> spec_fn(JsonView) -> Option<OrderFillView> {
    |j: JsonView| fill_of(j)
}

/// An array of fills, in the order given.
pub open spec fn fills_of(items: Seq<JsonView>) -> Option<Seq<OrderFillView>> {
    decode_all(items, fill_decoder())
}

pub open spec fn fills_view(fills: Seq<OrderFill>) -> Seq<OrderFillView> {
    fills.map_values(|f: OrderFill| f@)
}

impl OrderFill {
    pub fn from_json(j: &Json) -> (r: Option<OrderFill>)
        ensures
            match r {
                Some(f) => fill_of(j@) == Some(f@),
                None => fill_of(j@) is None,
            },
    {
        match j {
            Json::Object(fields) => {
                proof {
                    lemma_object_view(*fields);
                }
                let price = read_int_or_zero(fields, "price");
                let qty = read_int_or_zero(fields, "qty");
                let ts = read_text_or_empty(fields, "ts");
                match (price, qty, ts) {
                    (Some(price), Some(qty), Some(ts)) => Some(OrderFill { price, qty, ts }),
                    _ => None,
                }
            },
            _ => None,
        }
    }

    /// Reads each of `items` as a fill, keeping their order.
    pub fn all_from_json(items: &Vec<Json>) -> (r: Option<Vec<OrderFill>>)
        ensures
            match r {
                Some(v) => fills_of(items_view(items@)) == Some(fills_view(v@)),
                None => fills_of(items_view(items@)) is None,
            },
    {
        let ghost all = items_view(items@);
        let mut out: Vec<OrderFill> = Vec::new();
        let mut i: usize = 0;
        assert(all.take(0) =~= Seq::<JsonView>::empty());
        assert(fills_view(out@) =~= Seq::<OrderFillView>::empty());
        while i < items.len()
            invariant
                i <= items.len(),
                all == items_view(items@),
                fills_of(all.take(i as int)) == Some(fills_view(out@)),
            decreases items.len() - i,
        {
            match OrderFill::from_json(&items[i]) {
                Some(f) => {
                    let ghost before = out@;
                    assert(all.take(i + 1).drop_last() =~= all.take(i as int));
                    out.push(f);
                    assert(fills_view(out@) =~= fills_view(before).push(out@.last()@));
                },
                None => {
                    proof {
                        lemma_decode_all_in_order(all, fill_decoder());
                        assert((fill_decoder())(all[i as int]) is None);
                    }
                    return None;
                },
            }
            i = i + 1;
        }
        assert(all.take(items.len() as int) =~= all);
        Some(out)
    }
}

/// The venue's acknowledgement of an order.
#[derive(Debug)]
pub struct OrderResponse {
    pub ok: bool,
    pub error: String,
    pub symbol: String,
    pub venue: String,
    pub direction: String,
    pub original_qty: i32,
    pub qty: i32,
    pub price: i32,
    pub order_type: String,
    pub id: i32,
    pub account: String,
    pub ts: String,
    pub fills: Vec<OrderFill>,
    pub total_filled: i32,
    pub open: bool,
}

pub struct OrderResponseView {
    pub ok: bool,
    pub error: Seq<char>,
    pub symbol: Seq<char>,
    pub venue: Seq<char>,
    pub direction: Seq<char>,
    pub original_qty: i32,
    pub qty: i32,
    pub price: i32,
    pub order_type: Seq<char>,
    pub id: i32,
    pub account: Seq<char>,
    pub ts: Seq<char>,
    pub fills: Seq<OrderFillView>,
    pub total_filled: i32,
    pub open: bool,
}

impl View for OrderResponse {
    type V = OrderResponseView;

    open spec fn view(&self) -> OrderResponseView {
        OrderResponseView {
            ok: self.ok,
            error: self.error@,
            symbol: self.symbol@,
            venue: self.venue@,
            direction: self.direction@,
            original_qty: self.original_qty,
            qty: self.qty,
            price: self.price,
            order_type: self.order_type@,
            id: self.id,
            account: self.account@,
            ts: self.ts@,
            fills: fills_view(self.fills@),
            total_filled: self.total_filled,
            open: self.open,
        }
    }
}

/// `fills` may be left out, as an empty array.
pub open spec fn fills_at(fs: Seq<(Seq<char>, JsonView)>) -> Option<Seq<OrderFillView>> {
    match field(fs, "fills"@) {
        None => Some(Seq::empty()),
        Some(JsonView::Array(items)) => fills_of(items),
        _ => None,
    }
}

/// An order reply: `ok` must be present, every other member may be left out.
pub open spec fn order_response_of(j: JsonView) -> Option<OrderResponseView> {
    match j {
        JsonView::Object(fs) => {
            let ok = bool_at(fs, "ok"@);
            let error = text_or_empty(fs, "error"@);
            let symbol = text_or_empty(fs, "symbol"@);
            let venue = text_or_empty(fs, "venue"@);
            let direction = text_or_empty(fs, "direction"@);
            let original_qty = int_or_zero(fs, "originalQty"@);
            let qty = int_or_zero(fs, "qty"@);
            let price = int_or_zero(fs, "price"@);
            let order_type = text_or_empty(fs, "orderType"@);
            let id = int_or_zero(fs, "id"@);
            let account = text_or_empty(fs, "account"@);
            let ts = text_or_empty(fs, "ts"@);
            let fills = fills_at(fs);
            let total_filled = int_or_zero(fs, "totalFilled"@);
            let open = bool_or_false(fs, "open"@);
            if ok is Some && error is Some && symbol is Some && venue is Some && direction is Some
                && original_qty is Some && qty is Some && price is Some && order_type is Some
                && id is Some && account is Some && ts is Some && fills is Some
                && total_filled is Some && open is Some {
                Some(
                    OrderResponseView {
                        ok: ok->0,
                        error: error->0,
                        symbol: symbol->0,
                        venue: venue->0,
                        direction: direction->0,
                        original_qty: original_qty->0,
                        qty: qty->0,
                        price: price->0,
                        order_type: order_type->0,
                        id: id->0,
                        account: account->0,
                        ts: ts->0,
                        fills: fills->0,
                        total_filled: total_filled->0,
                        open: open->0,
                    },
                )
            } else {
                None
            }
        },
        _ => None,
    }
}

impl OrderResponse {
    /// Reads an order reply.
    pub fn from_json(j: &Json) -> (r: Option<OrderResponse>)
        ensures
            match r {
                Some(v) => order_response_of(j@) == Some(v@),
                None => order_response_of(j@) is None,
            },
    {
        match j {
            Json::Object(fields) => {
                proof {
                    lemma_object_view(*fields);
                }
                let ok = read_bool(fields, "ok");
                let error = read_text_or_empty(fields, "error");
                let symbol = read_text_or_empty(fields, "symbol");
                let venue = read_text_or_empty(fields, "venue");
                let direction = read_text_or_empty(fields, "direction");
                let original_qty = read_int_or_zero(fields, "originalQty");
                let qty = read_int_or_zero(fields, "qty");
                let price = read_int_or_zero(fields, "price");
                let order_type = read_text_or_empty(fields, "orderType");
                let id = read_int_or_zero(fields, "id");
                let account = read_text_or_empty(fields, "account");
                let ts = read_text_or_empty(fields, "ts");
                let fills = match get_field(fields, "fills") {
                    None => {
                        let none: Vec<OrderFill> = Vec::new();
                        assert(fills_view(none@) =~= Seq::<OrderFillView>::empty());
                        Some(none)
                    },
                    Some(Json::Array(items)) => {
                        proof {
                            lemma_array_view(*items);
                        }
                        OrderFill::all_from_json(items)
                    },
                    _ => None,
                };
                let total_filled = read_int_or_zero(fields, "totalFilled");
                let open = read_bool_or_false(fields, "open");
                if ok.is_none() || error.is_none() || symbol.is_none() || venue.is_none()
                    || direction.is_none() || original_qty.is_none() || qty.is_none()
                    || price.is_none() || order_type.is_none() || id.is_none()
                    || account.is_none() || ts.is_none() || fills.is_none()
                    || total_filled.is_none() || open.is_none() {
                    return None;
                }
                Some(
                    OrderResponse {
                        ok: ok.unwrap(),
                        error: error.unwrap(),
                        symbol: symbol.unwrap(),
                        venue: venue.unwrap(),
                        direction: direction.unwrap(),
                        original_qty: original_qty.unwrap(),
                        qty: qty.unwrap(),
                        price: price.unwrap(),
                        order_type: order_type.unwrap(),
                        id: id.unwrap(),
                        account: account.unwrap(),
                        ts: ts.unwrap(),
                        fills: fills.unwrap(),
                        total_filled: total_filled.unwrap(),
                        open: open.unwrap(),
                    },
                )
            },
            _ => None,
        }
    }
}

} // verus!
