//! The messages of the tax service that the library fills in.

use vstd::prelude::*;
use crate::model::{Check, CheckView, Counterparty, PartyView};
use crate::text::{decimal, decimal_text};

verus! {

/// How the program names itself to the service.
pub const USER_AGENT: &'static str =
    "Mozilla/5.0 (Macintosh; Intel Mac OS X 10_15_7) AppleWebKit/537.36 (KHTML, like Gecko) Chrome/122.0.0.0 Safari/537.36";

/// What the device says of the program that runs on it.
#[derive(Debug, PartialEq, Eq)]
pub struct DeviceInfoMetaDetails {
    pub user_agent: String,
}

/// The device from which a request comes.
#[derive(Debug, PartialEq, Eq)]
pub struct DeviceInfo {
    pub app_version: String,
    pub meta_details: DeviceInfoMetaDetails,
    pub source_device_id: String,
    pub source_type: String,
}

impl DeviceInfo {
    /// The device called `device_id`, as a web client of version 1.0.0.
    pub fn new(device_id: String) -> (device: Self)
        ensures
            device.app_version@ == "1.0.0"@,
            device.meta_details.user_agent@ == USER_AGENT@,
            device.source_device_id@ == device_id@,
            device.source_type@ == "WEB"@,
    {
        DeviceInfo {
            app_version: "1.0.0".to_owned(),
            meta_details: DeviceInfoMetaDetails { user_agent: USER_AGENT.to_owned() },
            source_device_id: device_id,
            source_type: "WEB".to_owned(),
        }
    }
}

/// Who paid.
#[derive(Debug, PartialEq, Eq)]
pub struct IncomeClientRequest {
    pub contact_phone: Option<String>,
    pub display_name: Option<String>,
    pub income_type: String,
    pub inn: Option<String>,
}

/// What was paid for.
#[derive(Debug, PartialEq, Eq)]
pub struct IncomeServiceRequest {
    pub amount: u32,
    pub name: String,
    pub quantity: u32,
}

/// The registration of an income.
#[derive(Debug, PartialEq, Eq)]
pub struct IncomeRequest {
    pub client: IncomeClientRequest,
    pub ignore_max_total_income_restriction: bool,
    pub operation_time: String,
    pub payment_type: String,
    pub request_time: String,
    pub services: Vec<IncomeServiceRequest>,
    pub total_amount: String,
}

/// The registration of an income as a mathematical value.
pub struct IncomeRequestView {
    pub contact_phone: Option<Seq<char>>,
    pub display_name: Option<Seq<char>>,
    pub income_type: Seq<char>,
    pub inn: Option<Seq<char>>,
    pub ignore_max_total_income_restriction: bool,
    pub operation_time: Seq<char>,
    pub request_time: Seq<char>,
    pub payment_type: Seq<char>,
    pub services: Seq<(u32, Seq<char>, u32)>,
    pub total_amount: Seq<char>,
}

impl View for IncomeRequest {
    type V = IncomeRequestView;

    open spec fn view(&self) -> IncomeRequestView {
        IncomeRequestView {
            contact_phone: match self.client.contact_phone {
                Some(phone) => Some(phone@),
                None => None,
            },
            display_name: match self.client.display_name {
                Some(name) => Some(name@),
                None => None,
            },
            income_type: self.client.income_type@,
            inn: match self.client.inn {
                Some(inn) => Some(inn@),
                None => None,
            },
            ignore_max_total_income_restriction: self.ignore_max_total_income_restriction,
            operation_time: self.operation_time@,
            request_time: self.request_time@,
            payment_type: self.payment_type@,
            services: self.services@.map_values(
                |s: IncomeServiceRequest| (s.amount, s.name@, s.quantity),
            ),
            total_amount: self.total_amount@,
        }
    }
}

/// The registration that a receipt asks for: one service with the title and
/// the price, paid in cash at the receipt's date, by a person or by the
/// organization with its name and tax number. No contact phone is given, and
/// the limit on the total income is not lifted.
pub open spec fn request_of(check: CheckView) -> IncomeRequestView {
    IncomeRequestView {
        contact_phone: None,
        display_name: match check.counterparty {
            PartyView::Person => None,
            PartyView::Organization { name, inn } => Some(name),
        },
        income_type: match check.counterparty {
            PartyView::Person => "FROM_INDIVIDUAL"@,
            PartyView::Organization { name, inn } => "FROM_LEGAL_ENTITY"@,
        },
        inn: match check.counterparty {
            PartyView::Person => None,
            PartyView::Organization { name, inn } => Some(inn),
        },
        ignore_max_total_income_restriction: false,
        operation_time: check.date.stamp,
        request_time: check.date.stamp,
        payment_type: "CASH"@,
        services: seq![(check.price, check.title, 1u32)],
        total_amount: decimal(check.price as nat),
    }
}

impl vstd::std_specs::convert::FromSpecImpl<Check> for IncomeRequest {
    open spec fn obeys_from_spec() -> bool {
        false
    }

    open spec fn from_spec(value: Check) -> Self {
        arbitrary()
    }
}

impl From<Check> for IncomeRequest {
    /// The registration that `value` asks for.
    fn from(value: Check) -> (request: Self)
        ensures
            request@ == request_of(value@),
    {
        let time = value.date.stamp().to_owned();
        let price = value.price.value();
        let client = match &value.counterparty {
            Counterparty::Person => IncomeClientRequest {
                contact_phone: None,
                display_name: None,
                income_type: "FROM_INDIVIDUAL".to_owned(),
                inn: None,
            },
            Counterparty::Organization { name, inn } => IncomeClientRequest {
                contact_phone: None,
                display_name: Some(name.as_str().to_owned()),
                income_type: "FROM_LEGAL_ENTITY".to_owned(),
                inn: Some(inn.as_str().to_owned()),
            },
        };
        let mut services: Vec<IncomeServiceRequest> = Vec::new();
        services.push(
            IncomeServiceRequest { amount: price, name: value.title.as_str().to_owned(), quantity: 1 },
        );
        let request = IncomeRequest {
            client,
            ignore_max_total_income_restriction: false,
            operation_time: time.clone(),
            payment_type: "CASH".to_owned(),
            request_time: time,
            services,
            total_amount: decimal_text(price as u64),
        };
        assert(request@.services =~= seq![(value@.price, value@.title, 1u32)]);
        request
    }
}

} // verus!
