use vstd::prelude::*;
use crate::text::{str_equal, owned};

verus! {

/// The kind of vehicle a trip is made with.
#[derive(Clone, Copy, Debug, PartialEq, Eq, Structural)]
pub enum Transport {
    taxi,
    wheelChairTaxi,
}

impl Transport {
    /// The display name of the transport.
    pub open spec fn label(self) -> Seq<char> {
        match self {
            Transport::taxi => "Taxi"@,
            Transport::wheelChairTaxi => "Wheel Chair Taxi"@,
        }
    }

    /// The transport whose display name is `s`, if any.
    pub open spec fn parse(s: Seq<char>) -> Result<Transport, ()> {
        if s == "Taxi"@ {
            Ok(Transport::taxi)
        } else if s == "Wheel Chair Taxi"@ {
            Ok(Transport::wheelChairTaxi)
        } else {
            Err(())
        }
    }

    pub fn to_string(&self) -> (r: String)
        ensures
            r@ == self.label(),
    {
        match self {
            Transport::taxi => owned("Taxi"),
            Transport::wheelChairTaxi => owned("Wheel Chair Taxi"),
        }
    }

    pub fn from_str(s: &str) -> (r: Result<Transport, ()>)
        ensures
            r == Transport::parse(s@),
    {
        if str_equal(s, "Taxi") {
            Ok(Transport::taxi)
        } else if str_equal(s, "Wheel Chair Taxi") {
            Ok(Transport::wheelChairTaxi)
        } else {
            Err(())
        }
    }
}

/// Parsing the display name of a transport gives the transport back.
pub proof fn lemma_transport_label_round_trip(t: Transport)
    ensures
        Transport::parse(t.label()) == Ok::<Transport, ()>(t),
{
    reveal_strlit("Taxi");
    reveal_strlit("Wheel Chair Taxi");
    assert("Taxi"@.len() != "Wheel Chair Taxi"@.len());
}

/// A taxi company that can carry out a trip.
#[derive(Clone, Copy, Debug, PartialEq, Eq, Structural)]
pub enum Company {
    TaxiKurir,
    ArlandaExpress,
    EkeroTaxi,
    HaningeNynashamnTaxi,
    Samtrans,
    Sirius,
    SverigeTaxi,
    SodertaljeTaxi,
    TaxiStockholm,
}

impl Company {
    /// The display name of the company.
    pub open spec fn label(self) -> Seq<char> {
        match self {
            Company::TaxiKurir => "Taxi Kurir"@,
            Company::ArlandaExpress => "Arlanda Express"@,
            Company::EkeroTaxi => "Ekerö Taxi"@,
            Company::HaningeNynashamnTaxi => "Haninge & Nynäshamn Taxi"@,
            Company::Samtrans => "Samtrans"@,
            Company::Sirius => "Sirius"@,
            Company::SverigeTaxi => "Sverigetaxi"@,
            Company::SodertaljeTaxi => "Södertälje Taxi"@,
            Company::TaxiStockholm => "Taxi Stockholm"@,
        }
    }

    /// The company whose display name is `s`, if any.
    pub open spec fn parse(s: Seq<char>) -> Result<Company, ()> {
        if s == "Taxi Kurir"@ {
            Ok(Company::TaxiKurir)
        } else if s == "Arlanda Express"@ {
            Ok(Company::ArlandaExpress)
        } else if s == "Ekerö Taxi"@ {
            Ok(Company::EkeroTaxi)
        } else if s == "Haninge & Nynäshamn Taxi"@ {
            Ok(Company::HaningeNynashamnTaxi)
        } else if s == "Samtrans"@ {
            Ok(Company::Samtrans)
        } else if s == "Sirius"@ {
            Ok(Company::Sirius)
        } else if s == "Sverigetaxi"@ {
            Ok(Company::SverigeTaxi)
        } else if s == "Södertälje Taxi"@ {
            Ok(Company::SodertaljeTaxi)
        } else if s == "Taxi Stockholm"@ {
            Ok(Company::TaxiStockholm)
        } else {
            Err(())
        }
    }

    pub fn to_string(&self) -> (r: String)
        ensures
            r@ == self.label(),
    {
        match self {
            Company::TaxiKurir => owned("Taxi Kurir"),
            Company::ArlandaExpress => owned("Arlanda Express"),
            Company::EkeroTaxi => owned("Ekerö Taxi"),
            Company::HaningeNynashamnTaxi => owned("Haninge & Nynäshamn Taxi"),
            Company::Samtrans => owned("Samtrans"),
            Company::Sirius => owned("Sirius"),
            Company::SverigeTaxi => owned("Sverigetaxi"),
            Company::SodertaljeTaxi => owned("Södertälje Taxi"),
            Company::TaxiStockholm => owned("Taxi Stockholm"),
        }
    }

    pub fn from_str(s: &str) -> (r: Result<Company, ()>)
        ensures
            r == Company::parse(s@),
    {
        if str_equal(s, "Taxi Kurir") {
            Ok(Company::TaxiKurir)
        } else if str_equal(s, "Arlanda Express") {
            Ok(Company::ArlandaExpress)
        } else if str_equal(s, "Ekerö Taxi") {
            Ok(Company::EkeroTaxi)
        } else if str_equal(s, "Haninge & Nynäshamn Taxi") {
            Ok(Company::HaningeNynashamnTaxi)
        } else if str_equal(s, "Samtrans") {
            Ok(Company::Samtrans)
        } else if str_equal(s, "Sirius") {
            Ok(Company::Sirius)
        } else if str_equal(s, "Sverigetaxi") {
            Ok(Company::SverigeTaxi)
        } else if str_equal(s, "Södertälje Taxi") {
            Ok(Company::SodertaljeTaxi)
        } else if str_equal(s, "Taxi Stockholm") {
            Ok(Company::TaxiStockholm)
        } else {
            Err(())
        }
    }
}

/// Parsing the display name of a company gives the company back.
pub proof fn lemma_company_label_round_trip(c: Company)
    ensures
        Company::parse(c.label()) == Ok::<Company, ()>(c),
{
    reveal_strlit("Taxi Kurir");
    reveal_strlit("Arlanda Express");
    reveal_strlit("Ekerö Taxi");
    reveal_strlit("Haninge & Nynäshamn Taxi");
    reveal_strlit("Samtrans");
    reveal_strlit("Sirius");
    reveal_strlit("Sverigetaxi");
    reveal_strlit("Södertälje Taxi");
    reveal_strlit("Taxi Stockholm");
    assert("Arlanda Express"@.len() != "Taxi Kurir"@.len());
    assert("Ekerö Taxi"@[0] != "Taxi Kurir"@[0]);
    assert("Ekerö Taxi"@.len() != "Arlanda Express"@.len());
    assert("Haninge & Nynäshamn Taxi"@.len() != "Taxi Kurir"@.len());
    assert("Haninge & Nynäshamn Taxi"@.len() != "Arlanda Express"@.len());
    assert("Haninge & Nynäshamn Taxi"@.len() != "Ekerö Taxi"@.len());
    assert("Samtrans"@.len() != "Taxi Kurir"@.len());
    assert("Samtrans"@.len() != "Arlanda Express"@.len());
    assert("Samtrans"@.len() != "Ekerö Taxi"@.len());
    assert("Samtrans"@.len() != "Haninge & Nynäshamn Taxi"@.len());
    assert("Sirius"@.len() != "Taxi Kurir"@.len());
    assert("Sirius"@.len() != "Arlanda Express"@.len());
    assert("Sirius"@.len() != "Ekerö Taxi"@.len());
    assert("Sirius"@.len() != "Haninge & Nynäshamn Taxi"@.len());
    assert("Sirius"@.len() != "Samtrans"@.len());
    assert("Sverigetaxi"@.len() != "Taxi Kurir"@.len());
    assert("Sverigetaxi"@.len() != "Arlanda Express"@.len());
    assert("Sverigetaxi"@.len() != "Ekerö Taxi"@.len());
    assert("Sverigetaxi"@.len() != "Haninge & Nynäshamn Taxi"@.len());
    assert("Sverigetaxi"@.len() != "Samtrans"@.len());
    assert("Sverigetaxi"@.len() != "Sirius"@.len());
    assert("Södertälje Taxi"@.len() != "Taxi Kurir"@.len());
    assert("Södertälje Taxi"@[0] != "Arlanda Express"@[0]);
    assert("Södertälje Taxi"@.len() != "Ekerö Taxi"@.len());
    assert("Södertälje Taxi"@.len() != "Haninge & Nynäshamn Taxi"@.len());
    assert("Södertälje Taxi"@.len() != "Samtrans"@.len());
    assert("Södertälje Taxi"@.len() != "Sirius"@.len());
    assert("Södertälje Taxi"@.len() != "Sverigetaxi"@.len());
    assert("Taxi Stockholm"@.len() != "Taxi Kurir"@.len());
    assert("Taxi Stockholm"@.len() != "Arlanda Express"@.len());
    assert("Taxi Stockholm"@.len() != "Ekerö Taxi"@.len());
    assert("Taxi Stockholm"@.len() != "Haninge & Nynäshamn Taxi"@.len());
    assert("Taxi Stockholm"@.len() != "Samtrans"@.len());
    assert("Taxi Stockholm"@.len() != "Sirius"@.len());
    assert("Taxi Stockholm"@.len() != "Sverigetaxi"@.len());
    assert("Taxi Stockholm"@.len() != "Södertälje Taxi"@.len());
}

/// A parsed display name names the value it was parsed into.
pub proof fn lemma_transport_parse_names_label(s: Seq<char>)
    ensures
        Transport::parse(s) matches Ok(t) ==> t.label() == s,
{
}

/// A parsed display name names the value it was parsed into.
pub proof fn lemma_company_parse_names_label(s: Seq<char>)
    ensures
        Company::parse(s) matches Ok(c) ==> c.label() == s,
{
}

/// How far a reservation has come.
#[derive(Clone, Copy, Debug, PartialEq, Eq, Structural)]
pub enum ReservationStatusEnum {
    ResaBesald,
    BilPavag,
    LetarEfterBil,
}

impl ReservationStatusEnum {
    /// The display name written for the status.
    pub open spec fn label(self) -> Seq<char> {
        match self {
            ReservationStatusEnum::ResaBesald => "Resa Bestäld"@,
            ReservationStatusEnum::BilPavag => "Bil Påväg"@,
            ReservationStatusEnum::LetarEfterBil => "Letar efter bil"@,
        }
    }

    /// The status whose name is `s`, if any. The accepted names are not all
    /// the displayed ones: "Resa Beställd" and "Bil påväg" are read.
    pub open spec fn parse(s: Seq<char>) -> Result<ReservationStatusEnum, ()> {
        if s == "Resa Beställd"@ {
            Ok(ReservationStatusEnum::ResaBesald)
        } else if s == "Bil påväg"@ {
            Ok(ReservationStatusEnum::BilPavag)
        } else if s == "Letar efter bil"@ {
            Ok(ReservationStatusEnum::LetarEfterBil)
        } else {
            Err(())
        }
    }

    /// The status a stored reservation names, if any: the reservation store
    /// only knows "Resa Beställd" and "Bil påväg".
    pub open spec fn parse_stored(s: Seq<char>) -> Result<ReservationStatusEnum, ()> {
        if s == "Resa Beställd"@ {
            Ok(ReservationStatusEnum::ResaBesald)
        } else if s == "Bil påväg"@ {
            Ok(ReservationStatusEnum::BilPavag)
        } else {
            Err(())
        }
    }

    pub fn to_string(&self) -> (r: String)
        ensures
            r@ == self.label(),
    {
        match self {
            ReservationStatusEnum::ResaBesald => owned("Resa Bestäld"),
            ReservationStatusEnum::BilPavag => owned("Bil Påväg"),
            ReservationStatusEnum::LetarEfterBil => owned("Letar efter bil"),
        }
    }

    pub fn from_str(s: &str) -> (r: Result<ReservationStatusEnum, ()>)
        ensures
            r == ReservationStatusEnum::parse(s@),
    {
        if str_equal(s, "Resa Beställd") {
            Ok(ReservationStatusEnum::ResaBesald)
        } else if str_equal(s, "Bil påväg") {
            Ok(ReservationStatusEnum::BilPavag)
        } else if str_equal(s, "Letar efter bil") {
            Ok(ReservationStatusEnum::LetarEfterBil)
        } else {
            Err(())
        }
    }

    /// Reads the status of a stored reservation.
    pub fn from_stored_str(s: &str) -> (r: Result<ReservationStatusEnum, ()>)
        ensures
            r == ReservationStatusEnum::parse_stored(s@),
    {
        if str_equal(s, "Resa Beställd") {
            Ok(ReservationStatusEnum::ResaBesald)
        } else if str_equal(s, "Bil påväg") {
            Ok(ReservationStatusEnum::BilPavag)
        } else {
            Err(())
        }
    }
}

/// Reading back the displayed name of "Letar efter bil" gives the status back.
pub proof fn lemma_status_label_round_trip(st: ReservationStatusEnum)
    requires
        st == ReservationStatusEnum::LetarEfterBil,
    ensures
        ReservationStatusEnum::parse(st.label()) == Ok::<ReservationStatusEnum, ()>(st),
{
    reveal_strlit("Letar efter bil");
    reveal_strlit("Resa Beställd");
    reveal_strlit("Bil påväg");
    assert("Letar efter bil"@.len() != "Resa Beställd"@.len());
    assert("Letar efter bil"@.len() != "Bil påväg"@.len());
}

/// The other two displayed status names are not read back: their spelling
/// differs from the accepted names.
pub proof fn lemma_status_label_not_read_back(st: ReservationStatusEnum)
    requires
        st != ReservationStatusEnum::LetarEfterBil,
    ensures
        ReservationStatusEnum::parse(st.label()) is Err,
{
    reveal_strlit("Letar efter bil");
    reveal_strlit("Resa Beställd");
    reveal_strlit("Bil påväg");
    reveal_strlit("Resa Bestäld");
    reveal_strlit("Bil Påväg");
    assert("Resa Bestäld"@.len() != "Resa Beställd"@.len());
    assert("Resa Bestäld"@.len() != "Bil påväg"@.len());
    assert("Resa Bestäld"@.len() != "Letar efter bil"@.len());
    assert("Bil Påväg"@.len() != "Resa Beställd"@.len());
    assert("Bil Påväg"@[4] != "Bil påväg"@[4]);
    assert("Bil Påväg"@.len() != "Letar efter bil"@.len());
}


/// The transport names the reservation store writes: "Taxi" and "Wheel Chair
/// Taxi" are read as the two transports and are the names they display, and
/// no other text is read as a transport.
pub proof fn lemma_transport_names(s: Seq<char>)
    ensures
        Transport::parse("Taxi"@) == Ok::<Transport, ()>(Transport::taxi),
        Transport::parse("Wheel Chair Taxi"@) == Ok::<Transport, ()>(Transport::wheelChairTaxi),
        Transport::taxi.label() == "Taxi"@,
        Transport::wheelChairTaxi.label() == "Wheel Chair Taxi"@,
        Transport::parse(s) is Ok <==> (s == "Taxi"@ || s == "Wheel Chair Taxi"@),
{
    lemma_transport_label_round_trip(Transport::taxi);
    lemma_transport_label_round_trip(Transport::wheelChairTaxi);
}

/// The company names the reservation store writes: each is read as its
/// company and is the name that company displays, and no other text is read
/// as a company.
pub proof fn lemma_company_names(s: Seq<char>)
    ensures
        Company::parse("Taxi Kurir"@) == Ok::<Company, ()>(Company::TaxiKurir),
        Company::parse("Arlanda Express"@) == Ok::<Company, ()>(Company::ArlandaExpress),
        Company::parse("Ekerö Taxi"@) == Ok::<Company, ()>(Company::EkeroTaxi),
        Company::parse("Haninge & Nynäshamn Taxi"@) == Ok::<Company, ()>(Company::HaningeNynashamnTaxi),
        Company::parse("Samtrans"@) == Ok::<Company, ()>(Company::Samtrans),
        Company::parse("Sirius"@) == Ok::<Company, ()>(Company::Sirius),
        Company::parse("Sverigetaxi"@) == Ok::<Company, ()>(Company::SverigeTaxi),
        Company::parse("Södertälje Taxi"@) == Ok::<Company, ()>(Company::SodertaljeTaxi),
        Company::parse("Taxi Stockholm"@) == Ok::<Company, ()>(Company::TaxiStockholm),
        Company::TaxiKurir.label() == "Taxi Kurir"@,
        Company::ArlandaExpress.label() == "Arlanda Express"@,
        Company::EkeroTaxi.label() == "Ekerö Taxi"@,
        Company::HaningeNynashamnTaxi.label() == "Haninge & Nynäshamn Taxi"@,
        Company::Samtrans.label() == "Samtrans"@,
        Company::Sirius.label() == "Sirius"@,
        Company::SverigeTaxi.label() == "Sverigetaxi"@,
        Company::SodertaljeTaxi.label() == "Södertälje Taxi"@,
        Company::TaxiStockholm.label() == "Taxi Stockholm"@,
        Company::parse(s) is Ok <==> (s == "Taxi Kurir"@ || s == "Arlanda Express"@ || s == "Ekerö Taxi"@
            || s == "Haninge & Nynäshamn Taxi"@ || s == "Samtrans"@ || s == "Sirius"@ || s
            == "Sverigetaxi"@ || s == "Södertälje Taxi"@ || s == "Taxi Stockholm"@),
{
    lemma_company_label_round_trip(Company::TaxiKurir);
    lemma_company_label_round_trip(Company::ArlandaExpress);
    lemma_company_label_round_trip(Company::EkeroTaxi);
    lemma_company_label_round_trip(Company::HaningeNynashamnTaxi);
    lemma_company_label_round_trip(Company::Samtrans);
    lemma_company_label_round_trip(Company::Sirius);
    lemma_company_label_round_trip(Company::SverigeTaxi);
    lemma_company_label_round_trip(Company::SodertaljeTaxi);
    lemma_company_label_round_trip(Company::TaxiStockholm);
}

/// The status names: a stored reservation's "Resa Beställd" and "Bil påväg"
/// are read as an ordered trip and a car on its way, "Letar efter bil" is
/// read only where any status name is read, and the names displayed are
/// "Resa Bestäld", "Bil Påväg" and "Letar efter bil".
pub proof fn lemma_status_names()
    ensures
        ReservationStatusEnum::parse_stored("Resa Beställd"@) == Ok::<ReservationStatusEnum, ()>(
            ReservationStatusEnum::ResaBesald,
        ),
        ReservationStatusEnum::parse_stored("Bil påväg"@) == Ok::<ReservationStatusEnum, ()>(
            ReservationStatusEnum::BilPavag,
        ),
        ReservationStatusEnum::parse_stored("Letar efter bil"@) is Err,
        ReservationStatusEnum::parse("Resa Beställd"@) == Ok::<ReservationStatusEnum, ()>(
            ReservationStatusEnum::ResaBesald,
        ),
        ReservationStatusEnum::parse("Bil påväg"@) == Ok::<ReservationStatusEnum, ()>(
            ReservationStatusEnum::BilPavag,
        ),
        ReservationStatusEnum::parse("Letar efter bil"@) == Ok::<ReservationStatusEnum, ()>(
            ReservationStatusEnum::LetarEfterBil,
        ),
        ReservationStatusEnum::ResaBesald.label() == "Resa Bestäld"@,
        ReservationStatusEnum::BilPavag.label() == "Bil Påväg"@,
        ReservationStatusEnum::LetarEfterBil.label() == "Letar efter bil"@,
{
    reveal_strlit("Letar efter bil");
    reveal_strlit("Resa Beställd");
    reveal_strlit("Bil påväg");
    assert("Letar efter bil"@.len() != "Resa Beställd"@.len());
    assert("Letar efter bil"@.len() != "Bil påväg"@.len());
    assert("Bil påväg"@.len() != "Resa Beställd"@.len());
}

} // verus!
