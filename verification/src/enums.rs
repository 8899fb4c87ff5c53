//! The closed enumerations the orchestration logic branches on.

use vstd::prelude::*;
use vstd::string::*;
use crate::text::str_eq;

verus! {

/// Lifecycle of a payment intent, the merchant-level record.
#[derive(Clone, Copy, Debug, PartialEq, Eq, Structural)]
pub enum IntentStatus {
    Succeeded,
    Failed,
    Cancelled,
    Processing,
    RequiresCustomerAction,
    RequiresPaymentMethod,
    RequiresConfirmation,
    RequiresCapture,
}

/// Lifecycle of one connector-directed attempt.
#[derive(Clone, Copy, Debug, PartialEq, Eq, Structural)]
pub enum AttemptStatus {
    Started,
    AuthenticationFailed,
    RouterDeclined,
    AuthenticationPending,
    AuthenticationSuccessful,
    Authorized,
    AuthorizationFailed,
    Charged,
    Authorizing,
    CodInitiated,
    Voided,
    VoidInitiated,
    CaptureInitiated,
    CaptureFailed,
    VoidFailed,
    AutoRefunded,
    PartialCharged,
    Unresolved,
    Pending,
    Failure,
    PaymentMethodAwaited,
    ConfirmationAwaited,
}

/// The family of instrument a payment is made with.
#[derive(Clone, Copy, Debug, PartialEq, Eq, Structural)]
pub enum PaymentMethod {
    Card,
    PayLater,
    Wallet,
    BankRedirect,
    BankTransfer,
    BankDebit,
    Crypto,
}

/// The concrete instrument within a payment method family.
#[derive(Clone, Copy, Debug, PartialEq, Eq, Structural)]
pub enum PaymentMethodType {
    Credit,
    Debit,
    ApplePay,
    GooglePay,
    Paypal,
    Klarna,
    Affirm,
    AfterpayClearpay,
    Ideal,
    Sofort,
    Giropay,
    Eps,
    Ach,
    Sepa,
    Bacs,
    CryptoCurrency,
}

/// How the customer completes the payment on their side.
#[derive(Clone, Copy, Debug, PartialEq, Eq, Structural)]
pub enum PaymentExperience {
    RedirectToUrl,
    InvokeSdkClient,
    DisplayQrCode,
    OneClick,
    LinkWallet,
    InvokePaymentApp,
}

/// When authorised funds are captured.
#[derive(Clone, Copy, Debug, PartialEq, Eq, Structural)]
pub enum CaptureMethod {
    Automatic,
    Manual,
    ManualMultiple,
    Scheduled,
}

/// Whether the attempt asks for 3-D Secure.
#[derive(Clone, Copy, Debug, PartialEq, Eq, Structural)]
pub enum AuthenticationType {
    ThreeDs,
    NoThreeDs,
}

/// Whether the instrument is kept for later payments.
#[derive(Clone, Copy, Debug, PartialEq, Eq, Structural)]
pub enum FutureUsage {
    OffSession,
    OnSession,
}

/// The storage scheme a merchant's records are kept under; it is threaded
/// unchanged through every storage request.
#[derive(Clone, Copy, Debug, PartialEq, Eq, Structural)]
pub enum MerchantStorageScheme {
    PostgresOnly,
    RedisKv,
}

/// Whether a request sets a mandate up or charges an existing one.
#[derive(Clone, Copy, Debug, PartialEq, Eq, Structural)]
pub enum MandateTxnType {
    NewMandateTxn,
    RecurringMandateTxn,
}

/// Who authenticated the request: the merchant's server or a client holding
/// a client secret.
#[derive(Clone, Copy, Debug, PartialEq, Eq, Structural)]
pub enum AuthFlow {
    Client,
    Merchant,
}

/// What the customer has to do next.
#[derive(Clone, Copy, Debug, PartialEq, Eq, Structural)]
pub enum NextActionType {
    RedirectToUrl,
    DisplayQrCode,
    InvokeSdkClient,
    TriggerApi,
}

/// Where a session token for a connector comes from.
#[derive(Clone, Copy, Debug, PartialEq, Eq, Structural)]
pub enum GetToken {
    Metadata,
    Connector,
}

/// The wallets a session request can ask tokens for.
#[derive(Clone, Copy, Debug, PartialEq, Eq, Structural)]
pub enum SupportedWallets {
    Paypal,
    ApplePay,
    Klarna,
    Gpay,
}

/// Stage of a dispute.
#[derive(Clone, Copy, Debug, PartialEq, Eq, Structural)]
pub enum DisputeStage {
    PreDispute,
    Dispute,
    PreArbitration,
}

/// Status of a dispute.
#[derive(Clone, Copy, Debug, PartialEq, Eq, Structural)]
pub enum DisputeStatus {
    DisputeOpened,
    DisputeExpired,
    DisputeAccepted,
    DisputeCancelled,
    DisputeChallenged,
    DisputeWon,
    DisputeLost,
}

/// What an uploaded file is for.
#[derive(Clone, Copy, Debug, PartialEq, Eq, Structural)]
pub enum FilePurpose {
    DisputeEvidence,
}

/// Who keeps an uploaded file.
#[derive(Clone, Copy, Debug, PartialEq, Eq, Structural)]
pub enum FileUploadProvider {
    Router,
    Stripe,
    Checkout,
}

/// Status of a refund as it is persisted.
#[derive(Clone, Copy, Debug, PartialEq, Eq, Structural)]
pub enum StoredRefundStatus {
    Failure,
    ManualReview,
    Pending,
    Success,
    TransactionFailure,
}

/// Status of a refund as it is reported to the merchant.
#[derive(Clone, Copy, Debug, PartialEq, Eq, Structural)]
pub enum RefundStatus {
    Succeeded,
    Failed,
    Pending,
    Review,
}

/// The HTTP method of a redirection form.
#[derive(Clone, Copy, Debug, PartialEq, Eq, Structural)]
pub enum HttpMethod {
    Get,
    Post,
}

/// The operation variants the pipeline is run for.
#[derive(Clone, Copy, Debug, PartialEq, Eq, Structural)]
pub enum Operation {
    PaymentCreate,
    PaymentConfirm,
    PaymentCapture,
    PaymentCancel,
    PaymentStatus,
    PaymentSession,
    PaymentStart,
    PaymentUpdate,
    PaymentMethodValidate,
    PaymentResponse,
}

/// The payment processors the router can reach.
#[derive(Clone, Copy, Debug, PartialEq, Eq, Structural)]
pub enum Connector {
    Aci,
    Adyen,
    Airwallex,
    Applepay,
    Authorizedotnet,
    Bambora,
    Bluesnap,
    Braintree,
    Checkout,
    Cybersource,
    Dlocal,
    Fiserv,
    Globalpay,
    Klarna,
    Mollie,
    Multisafepay,
    Nmi,
    Nuvei,
    Payu,
    Rapyd,
    Shift4,
    Stripe,
    Trustpay,
    Worldline,
    Worldpay,
}

impl Connector {
    /// The stable identifier of the connector.
    pub open spec fn name_spec(self) -> Seq<char> {
        match self {
            Connector::Aci => "aci"@,
            Connector::Adyen => "adyen"@,
            Connector::Airwallex => "airwallex"@,
            Connector::Applepay => "applepay"@,
            Connector::Authorizedotnet => "authorizedotnet"@,
            Connector::Bambora => "bambora"@,
            Connector::Bluesnap => "bluesnap"@,
            Connector::Braintree => "braintree"@,
            Connector::Checkout => "checkout"@,
            Connector::Cybersource => "cybersource"@,
            Connector::Dlocal => "dlocal"@,
            Connector::Fiserv => "fiserv"@,
            Connector::Globalpay => "globalpay"@,
            Connector::Klarna => "klarna"@,
            Connector::Mollie => "mollie"@,
            Connector::Multisafepay => "multisafepay"@,
            Connector::Nmi => "nmi"@,
            Connector::Nuvei => "nuvei"@,
            Connector::Payu => "payu"@,
            Connector::Rapyd => "rapyd"@,
            Connector::Shift4 => "shift4"@,
            Connector::Stripe => "stripe"@,
            Connector::Trustpay => "trustpay"@,
            Connector::Worldline => "worldline"@,
            Connector::Worldpay => "worldpay"@,
        }
    }

    /// The stable identifier of the connector.
    pub fn name(&self) -> (r: String)
        ensures
            r@ == self.name_spec(),
    {
        match self {
            Connector::Aci => String::from_str("aci"),
            Connector::Adyen => String::from_str("adyen"),
            Connector::Airwallex => String::from_str("airwallex"),
            Connector::Applepay => String::from_str("applepay"),
            Connector::Authorizedotnet => String::from_str("authorizedotnet"),
            Connector::Bambora => String::from_str("bambora"),
            Connector::Bluesnap => String::from_str("bluesnap"),
            Connector::Braintree => String::from_str("braintree"),
            Connector::Checkout => String::from_str("checkout"),
            Connector::Cybersource => String::from_str("cybersource"),
            Connector::Dlocal => String::from_str("dlocal"),
            Connector::Fiserv => String::from_str("fiserv"),
            Connector::Globalpay => String::from_str("globalpay"),
            Connector::Klarna => String::from_str("klarna"),
            Connector::Mollie => String::from_str("mollie"),
            Connector::Multisafepay => String::from_str("multisafepay"),
            Connector::Nmi => String::from_str("nmi"),
            Connector::Nuvei => String::from_str("nuvei"),
            Connector::Payu => String::from_str("payu"),
            Connector::Rapyd => String::from_str("rapyd"),
            Connector::Shift4 => String::from_str("shift4"),
            Connector::Stripe => String::from_str("stripe"),
            Connector::Trustpay => String::from_str("trustpay"),
            Connector::Worldline => String::from_str("worldline"),
            Connector::Worldpay => String::from_str("worldpay"),
        }
    }

    /// The connector a name stands for, if any.
    pub open spec fn from_name_spec(name: Seq<char>) -> Option<Connector> {
        if name == "aci"@ {
            Some(Connector::Aci)
        } else if name == "adyen"@ {
            Some(Connector::Adyen)
        } else if name == "airwallex"@ {
            Some(Connector::Airwallex)
        } else if name == "applepay"@ {
            Some(Connector::Applepay)
        } else if name == "authorizedotnet"@ {
            Some(Connector::Authorizedotnet)
        } else if name == "bambora"@ {
            Some(Connector::Bambora)
        } else if name == "bluesnap"@ {
            Some(Connector::Bluesnap)
        } else if name == "braintree"@ {
            Some(Connector::Braintree)
        } else if name == "checkout"@ {
            Some(Connector::Checkout)
        } else if name == "cybersource"@ {
            Some(Connector::Cybersource)
        } else if name == "dlocal"@ {
            Some(Connector::Dlocal)
        } else if name == "fiserv"@ {
            Some(Connector::Fiserv)
        } else if name == "globalpay"@ {
            Some(Connector::Globalpay)
        } else if name == "klarna"@ {
            Some(Connector::Klarna)
        } else if name == "mollie"@ {
            Some(Connector::Mollie)
        } else if name == "multisafepay"@ {
            Some(Connector::Multisafepay)
        } else if name == "nmi"@ {
            Some(Connector::Nmi)
        } else if name == "nuvei"@ {
            Some(Connector::Nuvei)
        } else if name == "payu"@ {
            Some(Connector::Payu)
        } else if name == "rapyd"@ {
            Some(Connector::Rapyd)
        } else if name == "shift4"@ {
            Some(Connector::Shift4)
        } else if name == "stripe"@ {
            Some(Connector::Stripe)
        } else if name == "trustpay"@ {
            Some(Connector::Trustpay)
        } else if name == "worldline"@ {
            Some(Connector::Worldline)
        } else if name == "worldpay"@ {
            Some(Connector::Worldpay)
        } else {
            None
        }
    }

    /// Looks a connector up by its identifier; `None` for a name that no
    /// connector carries.
    pub fn from_name(name: &str) -> (r: Option<Connector>)
        ensures
            r == Self::from_name_spec(name@),
    {
        if str_eq(name, "aci") {
            Some(Connector::Aci)
        } else if str_eq(name, "adyen") {
            Some(Connector::Adyen)
        } else if str_eq(name, "airwallex") {
            Some(Connector::Airwallex)
        } else if str_eq(name, "applepay") {
            Some(Connector::Applepay)
        } else if str_eq(name, "authorizedotnet") {
            Some(Connector::Authorizedotnet)
        } else if str_eq(name, "bambora") {
            Some(Connector::Bambora)
        } else if str_eq(name, "bluesnap") {
            Some(Connector::Bluesnap)
        } else if str_eq(name, "braintree") {
            Some(Connector::Braintree)
        } else if str_eq(name, "checkout") {
            Some(Connector::Checkout)
        } else if str_eq(name, "cybersource") {
            Some(Connector::Cybersource)
        } else if str_eq(name, "dlocal") {
            Some(Connector::Dlocal)
        } else if str_eq(name, "fiserv") {
            Some(Connector::Fiserv)
        } else if str_eq(name, "globalpay") {
            Some(Connector::Globalpay)
        } else if str_eq(name, "klarna") {
            Some(Connector::Klarna)
        } else if str_eq(name, "mollie") {
            Some(Connector::Mollie)
        } else if str_eq(name, "multisafepay") {
            Some(Connector::Multisafepay)
        } else if str_eq(name, "nmi") {
            Some(Connector::Nmi)
        } else if str_eq(name, "nuvei") {
            Some(Connector::Nuvei)
        } else if str_eq(name, "payu") {
            Some(Connector::Payu)
        } else if str_eq(name, "rapyd") {
            Some(Connector::Rapyd)
        } else if str_eq(name, "shift4") {
            Some(Connector::Shift4)
        } else if str_eq(name, "stripe") {
            Some(Connector::Stripe)
        } else if str_eq(name, "trustpay") {
            Some(Connector::Trustpay)
        } else if str_eq(name, "worldline") {
            Some(Connector::Worldline)
        } else if str_eq(name, "worldpay") {
            Some(Connector::Worldpay)
        } else {
            None
        }
    }

    /// Every connector is found again under its own name.
    pub proof fn lemma_name_round_trip(c: Connector)
        ensures
            Self::from_name_spec(c.name_spec()) == Some(c),
    {
        reveal_strlit("aci");
        reveal_strlit("adyen");
        reveal_strlit("airwallex");
        reveal_strlit("applepay");
        reveal_strlit("authorizedotnet");
        reveal_strlit("bambora");
        reveal_strlit("bluesnap");
        reveal_strlit("braintree");
        reveal_strlit("checkout");
        reveal_strlit("cybersource");
        reveal_strlit("dlocal");
        reveal_strlit("fiserv");
        reveal_strlit("globalpay");
        reveal_strlit("klarna");
        reveal_strlit("mollie");
        reveal_strlit("multisafepay");
        reveal_strlit("nmi");
        reveal_strlit("nuvei");
        reveal_strlit("payu");
        reveal_strlit("rapyd");
        reveal_strlit("shift4");
        reveal_strlit("stripe");
        reveal_strlit("trustpay");
        reveal_strlit("worldline");
        reveal_strlit("worldpay");
        assert("aci"@.len() == 3 && "aci"@[0] == 'a' && "aci"@[1] == 'c');
        assert("adyen"@.len() == 5 && "adyen"@[0] == 'a' && "adyen"@[1] == 'd');
        assert("airwallex"@.len() == 9 && "airwallex"@[0] == 'a' && "airwallex"@[1] == 'i');
        assert("applepay"@.len() == 8 && "applepay"@[0] == 'a' && "applepay"@[1] == 'p');
        assert("authorizedotnet"@.len() == 15 && "authorizedotnet"@[0] == 'a' && "authorizedotnet"@[1] == 'u');
        assert("bambora"@.len() == 7 && "bambora"@[0] == 'b' && "bambora"@[1] == 'a');
        assert("bluesnap"@.len() == 8 && "bluesnap"@[0] == 'b' && "bluesnap"@[1] == 'l');
        assert("braintree"@.len() == 9 && "braintree"@[0] == 'b' && "braintree"@[1] == 'r');
        assert("checkout"@.len() == 8 && "checkout"@[0] == 'c' && "checkout"@[1] == 'h');
        assert("cybersource"@.len() == 11 && "cybersource"@[0] == 'c' && "cybersource"@[1] == 'y');
        assert("dlocal"@.len() == 6 && "dlocal"@[0] == 'd' && "dlocal"@[1] == 'l');
        assert("fiserv"@.len() == 6 && "fiserv"@[0] == 'f' && "fiserv"@[1] == 'i');
        assert("globalpay"@.len() == 9 && "globalpay"@[0] == 'g' && "globalpay"@[1] == 'l');
        assert("klarna"@.len() == 6 && "klarna"@[0] == 'k' && "klarna"@[1] == 'l');
        assert("mollie"@.len() == 6 && "mollie"@[0] == 'm' && "mollie"@[1] == 'o');
        assert("multisafepay"@.len() == 12 && "multisafepay"@[0] == 'm' && "multisafepay"@[1] == 'u');
        assert("nmi"@.len() == 3 && "nmi"@[0] == 'n' && "nmi"@[1] == 'm');
        assert("nuvei"@.len() == 5 && "nuvei"@[0] == 'n' && "nuvei"@[1] == 'u');
        assert("payu"@.len() == 4 && "payu"@[0] == 'p' && "payu"@[1] == 'a');
        assert("rapyd"@.len() == 5 && "rapyd"@[0] == 'r' && "rapyd"@[1] == 'a');
        assert("shift4"@.len() == 6 && "shift4"@[0] == 's' && "shift4"@[1] == 'h');
        assert("stripe"@.len() == 6 && "stripe"@[0] == 's' && "stripe"@[1] == 't');
        assert("trustpay"@.len() == 8 && "trustpay"@[0] == 't' && "trustpay"@[1] == 'r');
        assert("worldline"@.len() == 9 && "worldline"@[0] == 'w' && "worldline"@[1] == 'o');
        assert("worldpay"@.len() == 8 && "worldpay"@[0] == 'w' && "worldpay"@[1] == 'o');
    }

    /// A name that resolves is the name of the connector it resolves to.
    pub proof fn lemma_from_name_is_name(name: Seq<char>)
        ensures
            Self::from_name_spec(name) matches Some(c) ==> c.name_spec() == name,
    {
    }

    /// A name stands for a connector exactly if it is that connector's name:
    /// no two connectors share a name, and no connector goes by a second one.
    pub proof fn lemma_name_identifies(name: Seq<char>, c: Connector)
        ensures
            Self::from_name_spec(name) == Some(c) <==> c.name_spec() == name,
    {
        Self::lemma_from_name_is_name(name);
        Self::lemma_name_round_trip(c);
    }
}

} // verus!
