//! Flight lookup tools: a toy flight-number table and a ticket-price table,
//! both pure lookups with exact contracts.

use vstd::prelude::*;

use crate::args::{arg_model, model_get_str, str_eq, ArgModel, ArgValue};
use crate::json::{json_text_of, to_json_text};
use crate::tools::{
    obj_schema, pairs_model, schema_object, str_prop, string_prop, texts_model, HelpTool,
    ToolExecutor, ToolRegistry,
};

verus! {

/// The model of one route: departure, destination, flight number.
pub struct RouteModel {
    pub departure: Seq<char>,
    pub destination: Seq<char>,
    pub flight_number: Seq<char>,
}

/// One route of the toy table.
#[derive(Debug)]
pub struct FlightRoute {
    pub departure: String,
    pub destination: String,
    pub flight_number: String,
}

impl View for FlightRoute {
    type V = RouteModel;

    open spec fn view(&self) -> RouteModel {
        RouteModel {
            departure: self.departure@,
            destination: self.destination@,
            flight_number: self.flight_number@,
        }
    }
}

/// The flight number of the first route with the given endpoints.
pub open spec fn route_lookup(
    routes: Seq<RouteModel>,
    departure: Seq<char>,
    destination: Seq<char>,
) -> Option<Seq<char>>
    decreases routes.len(),
{
    if routes.len() == 0 {
        None
    } else if routes[0].departure == departure && routes[0].destination == destination {
        Some(routes[0].flight_number)
    } else {
        route_lookup(routes.drop_first(), departure, destination)
    }
}

/// The routes the tool is built with.
pub open spec fn flight_table() -> Seq<RouteModel> {
    seq![
        RouteModel { departure: "北京"@, destination: "上海"@, flight_number: "1234"@ },
        RouteModel { departure: "北京"@, destination: "广州"@, flight_number: "8321"@ },
        RouteModel { departure: "北京"@, destination: "深圳"@, flight_number: "5678"@ },
        RouteModel { departure: "上海"@, destination: "北京"@, flight_number: "1233"@ },
        RouteModel { departure: "上海"@, destination: "广州"@, flight_number: "8123"@ },
        RouteModel { departure: "上海"@, destination: "深圳"@, flight_number: "5432"@ },
        RouteModel { departure: "广州"@, destination: "北京"@, flight_number: "8322"@ },
        RouteModel { departure: "广州"@, destination: "上海"@, flight_number: "8124"@ },
        RouteModel { departure: "广州"@, destination: "深圳"@, flight_number: "3456"@ },
    ]
}

/// The models of a route list.
pub open spec fn routes_model(s: Seq<FlightRoute>) -> Seq<RouteModel> {
    Seq::new(s.len(), |i: int| s[i]@)
}

/// The result document of a successful flight-number lookup.
pub open spec fn flight_result_obj(
    flight_number: Seq<char>,
    departure: Seq<char>,
    destination: Seq<char>,
) -> ArgModel {
    ArgModel::Obj(
        seq![
            ("flight_number"@, ArgModel::Str(flight_number)),
            ("departure"@, ArgModel::Str(departure)),
            ("destination"@, ArgModel::Str(destination)),
        ],
    )
}

/// What the flight-number tool answers on given arguments: the serialized
/// result document for a known route; an error text for a missing argument
/// or an unknown route.
pub open spec fn flight_answer(routes: Seq<RouteModel>, m: ArgModel) -> Result<
    Seq<char>,
    Seq<char>,
> {
    match model_get_str(m, "departure"@) {
        None => Err("缺少 'departure' 参数"@),
        Some(dep) => match model_get_str(m, "destination"@) {
            None => Err("缺少 'destination' 参数"@),
            Some(dest) => match model_get_str(m, "date"@) {
                None => Err("缺少 'date' 参数"@),
                Some(_) => match route_lookup(routes, dep, dest) {
                    Some(num) => Ok(json_text_of(flight_result_obj(num, dep, dest))),
                    None => Err("未找到从 "@ + dep + " 到 "@ + dest + " 的航班"@),
                },
            },
        },
    }
}

/// The model of a text-or-text result.
pub open spec fn answer_model(r: Result<String, String>) -> Result<Seq<char>, Seq<char>> {
    match r {
        Ok(s) => Ok(s@),
        Err(s) => Err(s@),
    }
}

/// Answers a flight number for a departure, a destination and a date, from
/// a fixed toy table.
#[derive(Debug)]
pub struct GetFlightNumberTool {
    flights: Vec<FlightRoute>,
}

impl GetFlightNumberTool {
    /// The tool's routes.
    pub closed spec fn routes(&self) -> Seq<RouteModel> {
        routes_model(self.flights@)
    }

    /// The tool over the fixed toy table.
    pub fn new() -> (r: GetFlightNumberTool)
        ensures
            r.routes() == flight_table(),
    {
        let mut flights: Vec<FlightRoute> = Vec::new();
        flights.push(route("北京", "上海", "1234"));
        flights.push(route("北京", "广州", "8321"));
        flights.push(route("北京", "深圳", "5678"));
        flights.push(route("上海", "北京", "1233"));
        flights.push(route("上海", "广州", "8123"));
        flights.push(route("上海", "深圳", "5432"));
        flights.push(route("广州", "北京", "8322"));
        flights.push(route("广州", "上海", "8124"));
        flights.push(route("广州", "深圳", "3456"));
        let r = GetFlightNumberTool { flights };
        proof {
            assert(r.routes() =~= flight_table());
        }
        r
    }

    /// The tool's whole behaviour on one argument document.
    pub fn lookup(&self, arguments: &ArgValue) -> (r: Result<String, String>)
        ensures
            answer_model(r) == flight_answer(self.routes(), arguments@),
    {
        let dep = match arguments.get_str("departure") {
            Some(s) => s,
            None => {
                return Err("缺少 'departure' 参数".to_owned());
            },
        };
        let dest = match arguments.get_str("destination") {
            Some(s) => s,
            None => {
                return Err("缺少 'destination' 参数".to_owned());
            },
        };
        let _date = match arguments.get_str("date") {
            Some(s) => s,
            None => {
                return Err("缺少 'date' 参数".to_owned());
            },
        };
        let n = self.flights.len();
        for i in 0..n
            invariant
                n == self.flights@.len(),
                model_get_str(arguments@, "departure"@) == Some(dep@),
                model_get_str(arguments@, "destination"@) == Some(dest@),
                model_get_str(arguments@, "date"@) is Some,
                forall|j: int|
                    0 <= j < i ==> !((#[trigger] self.routes()[j]).departure == dep@
                        && self.routes()[j].destination == dest@),
        {
            proof {
                assert(self.routes()[i as int] == self.flights@[i as int]@);
            }
            let row = &self.flights[i];
            if str_eq(row.departure.as_str(), dep.as_str()) && str_eq(
                row.destination.as_str(),
                dest.as_str(),
            ) {
                let mut pairs: Vec<(String, ArgValue)> = Vec::new();
                pairs.push(("flight_number".to_owned(), ArgValue::Str(row.flight_number.clone())));
                pairs.push(("departure".to_owned(), ArgValue::Str(dep.clone())));
                pairs.push(("destination".to_owned(), ArgValue::Str(dest.clone())));
                let doc = ArgValue::Obj(pairs);
                proof {
                    assert(pairs@.len() == 3);
                    assert(pairs@[0].0@ == "flight_number"@ && arg_model(pairs@[0].1)
                        == ArgModel::Str(row.flight_number@));
                    assert(pairs@[1].0@ == "departure"@ && arg_model(pairs@[1].1) == ArgModel::Str(
                        dep@,
                    ));
                    assert(pairs@[2].0@ == "destination"@ && arg_model(pairs@[2].1)
                        == ArgModel::Str(dest@));
                    assert(doc@->Obj_0 =~= flight_result_obj(
                        row.flight_number@,
                        dep@,
                        dest@,
                    )->Obj_0);
                    lemma_route_lookup_found(self.routes(), dep@, dest@, i as int);
                }
                return Ok(to_json_text(&doc));
            }
        }
        proof {
            lemma_route_lookup_absent(self.routes(), dep@, dest@);
        }
        let mut msg = "未找到从 ".to_owned();
        msg.append(dep.as_str());
        msg.append(" 到 ");
        msg.append(dest.as_str());
        msg.append(" 的航班");
        Err(msg)
    }
}

fn route(departure: &str, destination: &str, flight_number: &str) -> (r: FlightRoute)
    ensures
        r@ == (RouteModel {
            departure: departure@,
            destination: destination@,
            flight_number: flight_number@,
        }),
{
    FlightRoute {
        departure: departure.to_owned(),
        destination: destination.to_owned(),
        flight_number: flight_number.to_owned(),
    }
}

proof fn lemma_route_lookup_found(
    routes: Seq<RouteModel>,
    dep: Seq<char>,
    dest: Seq<char>,
    i: int,
)
    requires
        0 <= i < routes.len(),
        routes[i].departure == dep,
        routes[i].destination == dest,
        forall|j: int|
            0 <= j < i ==> !((#[trigger] routes[j]).departure == dep && routes[j].destination
                == dest),
    ensures
        route_lookup(routes, dep, dest) == Some(routes[i].flight_number),
    decreases i,
{
    if i > 0 {
        lemma_route_lookup_found(routes.drop_first(), dep, dest, i - 1);
    }
}

proof fn lemma_route_lookup_absent(routes: Seq<RouteModel>, dep: Seq<char>, dest: Seq<char>)
    requires
        forall|j: int|
            0 <= j < routes.len() ==> !((#[trigger] routes[j]).departure == dep
                && routes[j].destination == dest),
    ensures
        route_lookup(routes, dep, dest) is None,
    decreases routes.len(),
{
    if routes.len() > 0 {
        lemma_route_lookup_absent(routes.drop_first(), dep, dest);
    }
}

impl ToolExecutor for GetFlightNumberTool {
    open spec fn spec_name(&self) -> Seq<char> {
        "get_flight_number"@
    }

    open spec fn spec_description(&self) -> Seq<char> {
        "根据始发地、目的地和日期，查询对应日期的航班号"@
    }

    open spec fn spec_parameters(&self) -> ArgModel {
        obj_schema(
            seq![
                ("departure"@, str_prop("出发地"@)),
                ("destination"@, str_prop("目的地"@)),
                ("date"@, str_prop("日期（格式：YYYY-MM-DD）"@)),
            ],
            seq!["departure"@, "destination"@, "date"@],
        )
    }

    fn name(&self) -> (r: String) {
        "get_flight_number".to_owned()
    }

    fn description(&self) -> (r: String) {
        "根据始发地、目的地和日期，查询对应日期的航班号".to_owned()
    }

    fn parameters(&self) -> (r: ArgValue) {
        let mut props: Vec<(String, ArgValue)> = Vec::new();
        props.push(("departure".to_owned(), string_prop("出发地")));
        props.push(("destination".to_owned(), string_prop("目的地")));
        props.push(("date".to_owned(), string_prop("日期（格式：YYYY-MM-DD）")));
        let mut req: Vec<String> = Vec::new();
        req.push("departure".to_owned());
        req.push("destination".to_owned());
        req.push("date".to_owned());
        let r = schema_object(props, req);
        proof {
            assert(pairs_model(props@) =~= seq![
                ("departure"@, str_prop("出发地"@)),
                ("destination"@, str_prop("目的地"@)),
                ("date"@, str_prop("日期（格式：YYYY-MM-DD）"@)),
            ]);
            assert(texts_model(req@) =~= seq!["departure"@, "destination"@, "date"@]);
        }
        r
    }

    /// Pure table lookup; never touches the outside world.
    fn execute(&self, arguments: &ArgValue) -> Result<String, String> {
        self.lookup(arguments)
    }
}

impl Default for GetFlightNumberTool {
    /// The tool over the fixed toy table.
    fn default() -> (r: GetFlightNumberTool)
        ensures
            r.routes() == flight_table(),
    {
        GetFlightNumberTool::new()
    }
}

/// The fixed price of a flight number; unknown numbers get a default.
pub open spec fn price_of(num: Seq<char>) -> i64 {
    if num == "1234"@ || num == "1233"@ {
        1500
    } else if num == "8321"@ || num == "8322"@ {
        1200
    } else if num == "8123"@ || num == "8124"@ {
        1300
    } else if num == "5678"@ || num == "5432"@ {
        1100
    } else if num == "3456"@ {
        1000
    } else {
        800
    }
}

/// The result document of a price lookup.
pub open spec fn price_result_obj(price: i64, flight_number: Seq<char>) -> ArgModel {
    ArgModel::Obj(
        seq![
            ("ticket_price"@, ArgModel::Int(price)),
            ("flight_number"@, ArgModel::Str(flight_number)),
            ("currency"@, ArgModel::Str("CNY"@)),
        ],
    )
}

/// What the price tool answers on given arguments.
pub open spec fn price_answer(m: ArgModel) -> Result<Seq<char>, Seq<char>> {
    match model_get_str(m, "flight_number"@) {
        None => Err("缺少 'flight_number' 参数"@),
        Some(num) => Ok(json_text_of(price_result_obj(price_of(num), num))),
    }
}

/// Answers a ticket price for a flight number on a date, from a fixed toy
/// price list.
#[derive(Debug)]
pub struct GetTicketPriceTool;

impl GetTicketPriceTool {
    /// The tool's whole behaviour on one argument document.
    pub fn quote(&self, arguments: &ArgValue) -> (r: Result<String, String>)
        ensures
            answer_model(r) == price_answer(arguments@),
    {
        let num = match arguments.get_str("flight_number") {
            Some(s) => s,
            None => {
                return Err("缺少 'flight_number' 参数".to_owned());
            },
        };
        let price: i64 = if str_eq(num.as_str(), "1234") || str_eq(num.as_str(), "1233") {
            1500
        } else if str_eq(num.as_str(), "8321") || str_eq(num.as_str(), "8322") {
            1200
        } else if str_eq(num.as_str(), "8123") || str_eq(num.as_str(), "8124") {
            1300
        } else if str_eq(num.as_str(), "5678") || str_eq(num.as_str(), "5432") {
            1100
        } else if str_eq(num.as_str(), "3456") {
            1000
        } else {
            800
        };
        let mut pairs: Vec<(String, ArgValue)> = Vec::new();
        pairs.push(("ticket_price".to_owned(), ArgValue::Int(price)));
        pairs.push(("flight_number".to_owned(), ArgValue::Str(num.clone())));
        pairs.push(("currency".to_owned(), ArgValue::Str("CNY".to_owned())));
        let doc = ArgValue::Obj(pairs);
        proof {
            assert(price == price_of(num@));
            assert(pairs@.len() == 3);
            assert(pairs@[0].0@ == "ticket_price"@ && arg_model(pairs@[0].1) == ArgModel::Int(
                price,
            ));
            assert(pairs@[1].0@ == "flight_number"@ && arg_model(pairs@[1].1) == ArgModel::Str(
                num@,
            ));
            assert(pairs@[2].0@ == "currency"@ && arg_model(pairs@[2].1) == ArgModel::Str("CNY"@));
            assert(doc@->Obj_0 =~= price_result_obj(price_of(num@), num@)->Obj_0);
        }
        Ok(to_json_text(&doc))
    }
}

impl Default for GetTicketPriceTool {
    fn default() -> (r: GetTicketPriceTool)
        ensures
            r == GetTicketPriceTool,
    {
        GetTicketPriceTool
    }
}

impl ToolExecutor for GetTicketPriceTool {
    open spec fn spec_name(&self) -> Seq<char> {
        "get_ticket_price"@
    }

    open spec fn spec_description(&self) -> Seq<char> {
        "查询某航班在某日的票价"@
    }

    open spec fn spec_parameters(&self) -> ArgModel {
        obj_schema(
            seq![
                ("flight_number"@, str_prop("航班号"@)),
                ("date"@, str_prop("日期（格式：YYYY-MM-DD）"@)),
            ],
            seq!["flight_number"@, "date"@],
        )
    }

    fn name(&self) -> (r: String) {
        "get_ticket_price".to_owned()
    }

    fn description(&self) -> (r: String) {
        "查询某航班在某日的票价".to_owned()
    }

    fn parameters(&self) -> (r: ArgValue) {
        let mut props: Vec<(String, ArgValue)> = Vec::new();
        props.push(("flight_number".to_owned(), string_prop("航班号")));
        props.push(("date".to_owned(), string_prop("日期（格式：YYYY-MM-DD）")));
        let mut req: Vec<String> = Vec::new();
        req.push("flight_number".to_owned());
        req.push("date".to_owned());
        let r = schema_object(props, req);
        proof {
            assert(pairs_model(props@) =~= seq![
                ("flight_number"@, str_prop("航班号"@)),
                ("date"@, str_prop("日期（格式：YYYY-MM-DD）"@)),
            ]);
            assert(texts_model(req@) =~= seq!["flight_number"@, "date"@]);
        }
        r
    }

    /// Pure price lookup; never touches the outside world.
    fn execute(&self, arguments: &ArgValue) -> Result<String, String> {
        self.quote(arguments)
    }
}

/// The tools whose logic lives in this crate, as one registrable type.
#[derive(Debug)]
pub enum BuiltinTool {
    FlightNumber(GetFlightNumberTool),
    TicketPrice(GetTicketPriceTool),
    Help(HelpTool),
}

impl ToolExecutor for BuiltinTool {
    open spec fn spec_name(&self) -> Seq<char> {
        match self {
            BuiltinTool::FlightNumber(t) => t.spec_name(),
            BuiltinTool::TicketPrice(t) => t.spec_name(),
            BuiltinTool::Help(t) => t.spec_name(),
        }
    }

    open spec fn spec_description(&self) -> Seq<char> {
        match self {
            BuiltinTool::FlightNumber(t) => t.spec_description(),
            BuiltinTool::TicketPrice(t) => t.spec_description(),
            BuiltinTool::Help(t) => t.spec_description(),
        }
    }

    open spec fn spec_parameters(&self) -> ArgModel {
        match self {
            BuiltinTool::FlightNumber(t) => t.spec_parameters(),
            BuiltinTool::TicketPrice(t) => t.spec_parameters(),
            BuiltinTool::Help(t) => t.spec_parameters(),
        }
    }

    fn name(&self) -> (r: String) {
        match self {
            BuiltinTool::FlightNumber(t) => t.name(),
            BuiltinTool::TicketPrice(t) => t.name(),
            BuiltinTool::Help(t) => t.name(),
        }
    }

    fn description(&self) -> (r: String) {
        match self {
            BuiltinTool::FlightNumber(t) => t.description(),
            BuiltinTool::TicketPrice(t) => t.description(),
            BuiltinTool::Help(t) => t.description(),
        }
    }

    fn parameters(&self) -> (r: ArgValue) {
        match self {
            BuiltinTool::FlightNumber(t) => t.parameters(),
            BuiltinTool::TicketPrice(t) => t.parameters(),
            BuiltinTool::Help(t) => t.parameters(),
        }
    }

    fn execute(&self, arguments: &ArgValue) -> Result<String, String> {
        match self {
            BuiltinTool::FlightNumber(t) => t.execute(arguments),
            BuiltinTool::TicketPrice(t) => t.execute(arguments),
            BuiltinTool::Help(t) => t.execute(arguments),
        }
    }
}

/// Registers both flight tools: afterwards the flight-number tool stands
/// under its name with the fixed toy table, the price tool under its name,
/// and every other registration is untouched.
pub fn register_flight_tools(registry: &mut ToolRegistry<BuiltinTool>)
    requires
        old(registry).wf(),
    ensures
        final(registry).wf(),
        final(registry).as_map().contains_key("get_flight_number"@),
        final(registry).as_map()["get_flight_number"@] matches BuiltinTool::FlightNumber(t)
            && t.routes() == flight_table(),
        final(registry).as_map().contains_key("get_ticket_price"@),
        final(registry).as_map()["get_ticket_price"@] == BuiltinTool::TicketPrice(
            GetTicketPriceTool,
        ),
        forall|k: Seq<char>|
            k != "get_flight_number"@ && k != "get_ticket_price"@ ==> (
            final(registry).as_map().contains_key(k) <==> old(registry).as_map().contains_key(k))
                && (final(registry).as_map().contains_key(k)
                ==> final(registry).as_map()[k] == old(registry).as_map()[k]),
{
    registry.register(BuiltinTool::FlightNumber(GetFlightNumberTool::new()));
    registry.register(BuiltinTool::TicketPrice(GetTicketPriceTool));
    proof {
        reveal_strlit("get_flight_number");
        reveal_strlit("get_ticket_price");
        assert("get_flight_number"@.len() == 17);
        assert("get_ticket_price"@.len() == 16);
        assert("get_flight_number"@ != "get_ticket_price"@);
    }
}

} // verus!

