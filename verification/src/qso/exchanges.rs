//! The values a QSO exchanges, and the sentences the simulated
//! station sends.

use vstd::prelude::*;

use crate::qso::callsigns::{
    random_dl_station, random_station, random_rst, random_rig, random_ant, random_pwr,
    spec_station, spec_station_count, spec_rst, spec_rig, spec_ant, spec_pwr,
};
use crate::qso::QsoStyle;
use crate::rng::rand_range_u32;
use crate::text::{spec_decimal, spec_pad3, str_eq, u32_to_serial, u32_to_string};

verus! {

/// The values of one simulated station's side of the exchange.
pub struct SimExchange {
    pub sim_call: String,
    pub sim_name: String,
    pub sim_qth: String,
    pub dok: String,
    pub rst_to_me: String,
    pub rig: String,
    pub ant: String,
    pub pwr: String,
    /// QSO serial number of the simulated station, for contest runs.
    pub sim_serial: u32,
    /// CWT exchange: member number, or country code for non-members.
    pub cwt_ex: String,
}

/// The abstract exchange: every field as the character sequence it
/// holds.
pub struct ExchangeModel {
    pub sim_call: Seq<char>,
    pub sim_name: Seq<char>,
    pub sim_qth: Seq<char>,
    pub dok: Seq<char>,
    pub rst_to_me: Seq<char>,
    pub rig: Seq<char>,
    pub ant: Seq<char>,
    pub pwr: Seq<char>,
    pub sim_serial: u32,
    pub cwt_ex: Seq<char>,
}

impl View for SimExchange {
    type V = ExchangeModel;

    open spec fn view(&self) -> ExchangeModel {
        ExchangeModel {
            sim_call: self.sim_call@,
            sim_name: self.sim_name@,
            sim_qth: self.sim_qth@,
            dok: self.dok@,
            rst_to_me: self.rst_to_me@,
            rig: self.rig@,
            ant: self.ant@,
            pwr: self.pwr@,
            sim_serial: self.sim_serial,
            cwt_ex: self.cwt_ex@,
        }
    }
}

/// What a generated exchange looks like: one station of the pool
/// (German when the DARC contest asks for one), a report, rig,
/// antenna and power from their tables, a plausible mid-contest
/// serial, and a CWT exchange that is a four-digit member number for
/// German stations and the country code for the rest.
pub open spec fn spec_exchange_wf(e: ExchangeModel, style: QsoStyle) -> bool {
    &&& exists|i: int|
        {
            &&& 0 <= i < spec_station_count()
            &&& (style == QsoStyle::DarcCwContest ==> i < crate::qso::callsigns::spec_dl_station_count())
            &&& e.sim_call == #[trigger] spec_station(i).call@
            &&& e.sim_name == spec_station(i).name@
            &&& e.sim_qth == spec_station(i).qth@
            &&& e.dok == spec_station(i).dok@
            &&& (if spec_station(i).country@ == "DL"@ {
                exists|v: int| 1000 <= v <= 9999 && e.cwt_ex == #[trigger] spec_decimal(v)
            } else {
                e.cwt_ex == spec_station(i).country@
            })
        }
    &&& exists|j: int| 0 <= j < 9 && e.rst_to_me == #[trigger] spec_rst(j)@
    &&& exists|j: int| 0 <= j < 10 && e.rig == #[trigger] spec_rig(j)@
    &&& exists|j: int| 0 <= j < 7 && e.ant == #[trigger] spec_ant(j)@
    &&& exists|j: int| 0 <= j < 6 && e.pwr == #[trigger] spec_pwr(j)@
    &&& 1 <= e.sim_serial <= 250
}

impl SimExchange {
    /// Draw one full exchange.  The DARC CW contest always picks a
    /// German station, so the DOK is never `NM`.
    pub fn generate(style: QsoStyle) -> (r: SimExchange)
        ensures
            spec_exchange_wf(r@, style),
    {
        let (idx, st) = if style == QsoStyle::DarcCwContest {
            random_dl_station()
        } else {
            random_station()
        };
        let cwt_ex: String = if str_eq(st.country, "DL") {
            u32_to_string(rand_range_u32(1000, 9999))
        } else {
            st.country.to_owned()
        };
        let r = SimExchange {
            sim_call: st.call.to_owned(),
            sim_name: st.name.to_owned(),
            sim_qth: st.qth.to_owned(),
            dok: st.dok.to_owned(),
            rst_to_me: random_rst().to_owned(),
            rig: random_rig().to_owned(),
            ant: random_ant().to_owned(),
            pwr: random_pwr().to_owned(),
            sim_serial: rand_range_u32(1, 250),
            cwt_ex,
        };
        proof {
            assert(0 <= idx < spec_station_count() && r@.sim_call == spec_station(idx as int).call@
                && r@.sim_name == spec_station(idx as int).name@ && r@.sim_qth == spec_station(
                idx as int,
            ).qth@ && r@.dok == spec_station(idx as int).dok@);
        }
        r
    }
}

/// All the messages the simulated station sends during a QSO.
pub struct QsoScript {
    /// The opening call.
    pub cq: String,
    /// The answer to the operator's own CQ.
    pub answer: String,
    /// The first exchange: report, and per style name, QTH or serial.
    pub report: String,
    /// The acknowledgement of the operator's exchange.
    pub ack_report: String,
    /// Rag-chew follow-ups, in order.
    pub chat: Vec<String>,
    /// The closing message.
    pub sign_off: String,
    /// The hint shown to the operator: what they should send back.
    pub contest_ex: String,
}

/// The abstract script.
pub struct ScriptModel {
    pub cq: Seq<char>,
    pub answer: Seq<char>,
    pub report: Seq<char>,
    pub ack_report: Seq<char>,
    pub chat: Seq<Seq<char>>,
    pub sign_off: Seq<char>,
    pub contest_ex: Seq<char>,
}

impl View for QsoScript {
    type V = ScriptModel;

    open spec fn view(&self) -> ScriptModel {
        ScriptModel {
            cq: self.cq@,
            answer: self.answer@,
            report: self.report@,
            ack_report: self.ack_report@,
            chat: self.chat@.map_values(|m: String| m@),
            sign_off: self.sign_off@,
            contest_ex: self.contest_ex@,
        }
    }
}

/// The script for one QSO, word for word.  `my` is the operator's
/// callsign, `ex` the simulated station's exchange, `my_rst` the
/// report the station will give, `my_serial` the operator's running
/// QSO count, `cwt_name`/`cwt_nr` the operator's CWT exchange and
/// `my_dok` their DARC chapter code.
pub open spec fn spec_build(
    my: Seq<char>,
    ex: ExchangeModel,
    style: QsoStyle,
    my_rst: Seq<char>,
    my_serial: u32,
    cwt_name: Seq<char>,
    cwt_nr: Seq<char>,
    my_dok: Seq<char>,
) -> ScriptModel {
    let sc = ex.sim_call;
    let sn = ex.sim_name;
    let sq = ex.sim_qth;
    let sr = ex.rst_to_me;
    if style == QsoStyle::MwcContest {
        ScriptModel {
            cq: "CQ CQ TEST "@ + sc + " K"@,
            answer: my + " DE "@ + sc + " "@ + sc + " K"@,
            report: my + " UR RST "@ + sr + " "@ + sr + " "@ + spec_pad3(ex.sim_serial as int)
                + " K"@,
            ack_report: my + " TU 73 <SK>"@,
            chat: Seq::empty(),
            sign_off: Seq::empty(),
            contest_ex: sc + " UR RST 599 599 "@ + spec_pad3(my_serial as int) + " K"@,
        }
    } else if style == QsoStyle::CwtContest {
        ScriptModel {
            cq: "CQ CQ CWT "@ + sc + " K"@,
            answer: my + " DE "@ + sc + " "@ + sc + " K"@,
            report: my + " "@ + sn + " "@ + ex.cwt_ex + " K"@,
            ack_report: "TU "@ + sc,
            chat: Seq::empty(),
            sign_off: Seq::empty(),
            contest_ex: "TU "@ + cwt_name + " "@ + cwt_nr,
        }
    } else if style == QsoStyle::DarcCwContest {
        ScriptModel {
            cq: "CQ TEST DE "@ + sc + " "@ + sc + " K"@,
            answer: my + " DE "@ + sc + " "@ + sc + " K"@,
            report: my + " DE "@ + sc + " RST "@ + sr + " "@ + sr + " DOK "@ + ex.dok + " "@
                + ex.dok + " <AR>"@,
            ack_report: "TU "@ + my + " RST "@ + my_rst + " "@ + my_rst + " <AR>"@,
            chat: Seq::empty(),
            sign_off: "TU 73 DE "@ + sc + " <SK>"@,
            contest_ex: sc + " UR RST 599 DOK "@ + my_dok + " "@ + my_dok + " <AR>"@,
        }
    } else {
        ScriptModel {
            cq: "CQ CQ DE "@ + sc + " "@ + sc + " K"@,
            answer: my + " DE "@ + sc + " "@ + sc + " K"@,
            report: my + " DE "@ + sc + " GE OM UR "@ + sr + " "@ + sr + " NAME "@ + sn + " "@
                + sn + " QTH "@ + sq + " "@ + sq + " HW? <AR>"@,
            ack_report: "TU "@ + my + " UR "@ + my_rst + " "@ + my_rst + " NAME "@ + sn
                + " QTH "@ + sq + " RIG "@ + ex.rig + " ANT "@ + ex.ant + " PWR "@ + ex.pwr
                + " HW? <AR>"@,
            chat: seq![
                "WX HR FINE TEMP WARM HW UR WX? <AR>"@,
                "RIG HR "@ + ex.rig + " ANT "@ + ex.ant + " PWR "@ + ex.pwr + " HW UR RIG? <AR>"@,
                "BEEN LIC MANY YRS NW ENJOY CW VY MUCH HW? <AR>"@,
                "HR WE HAVE NICE QSB TODAY HW? <AR>"@,
            ],
            sign_off: "OK "@ + sn + " TU FB QSO 73 ES GL DE "@ + sc + " <SK>"@,
            contest_ex: my + " DE "@ + sc + " 599 001 001 <AR>"@,
        }
    }
}

impl QsoScript {
    /// Build all the messages for one QSO.
    pub fn build(
        mycall: &str,
        ex: &SimExchange,
        style: QsoStyle,
        my_rst: &str,
        my_serial: u32,
        cwt_name: &str,
        cwt_nr: &str,
        my_dok: &str,
    ) -> (r: QsoScript)
        ensures
            r@ == spec_build(
                mycall@,
                ex@,
                style,
                my_rst@,
                my_serial,
                cwt_name@,
                cwt_nr@,
                my_dok@,
            ),
    {
        let sc = ex.sim_call.as_str();
        let sn = ex.sim_name.as_str();
        let sq = ex.sim_qth.as_str();
        let sr = ex.rst_to_me.as_str();

        if style == QsoStyle::MwcContest {
        let mut cq = String::from_str("CQ CQ TEST ");
        cq.append(sc);
        cq.append(" K");
        let mut answer = String::from_str(mycall);
        answer.append(" DE ");
        answer.append(sc);
        answer.append(" ");
        answer.append(sc);
        answer.append(" K");
        let sim_ser = u32_to_serial(ex.sim_serial);
        let my_ser = u32_to_serial(my_serial);
        let mut report = String::from_str(mycall);
        report.append(" UR RST ");
        report.append(sr);
        report.append(" ");
        report.append(sr);
        report.append(" ");
        report.append(sim_ser.as_str());
        report.append(" K");
        let mut ack_report = String::from_str(mycall);
        ack_report.append(" TU 73 <SK>");
        let mut contest_ex = String::from_str(sc);
        contest_ex.append(" UR RST 599 599 ");
        contest_ex.append(my_ser.as_str());
        contest_ex.append(" K");
        let r = QsoScript { cq, answer, report, ack_report, chat: Vec::new(), sign_off: String::new(), contest_ex };
        proof {
            assert(r@.chat =~= Seq::<Seq<char>>::empty());
            assert(r@ =~= spec_build(mycall@, ex@, style, my_rst@, my_serial, cwt_name@, cwt_nr@, my_dok@));
        }
        r
        } else if style == QsoStyle::CwtContest {
        let mut cq = String::from_str("CQ CQ CWT ");
        cq.append(sc);
        cq.append(" K");
        let mut answer = String::from_str(mycall);
        answer.append(" DE ");
        answer.append(sc);
        answer.append(" ");
        answer.append(sc);
        answer.append(" K");
        let mut report = String::from_str(mycall);
        report.append(" ");
        report.append(sn);
        report.append(" ");
        report.append(ex.cwt_ex.as_str());
        report.append(" K");
        let mut ack_report = String::from_str("TU ");
        ack_report.append(sc);
        let mut contest_ex = String::from_str("TU ");
        contest_ex.append(cwt_name);
        contest_ex.append(" ");
        contest_ex.append(cwt_nr);
        let r = QsoScript { cq, answer, report, ack_report, chat: Vec::new(), sign_off: String::new(), contest_ex };
        proof {
            assert(r@.chat =~= Seq::<Seq<char>>::empty());
            assert(r@ =~= spec_build(mycall@, ex@, style, my_rst@, my_serial, cwt_name@, cwt_nr@, my_dok@));
        }
        r
        } else if style == QsoStyle::DarcCwContest {
        let mut cq = String::from_str("CQ TEST DE ");
        cq.append(sc);
        cq.append(" ");
        cq.append(sc);
        cq.append(" K");
        let mut answer = String::from_str(mycall);
        answer.append(" DE ");
        answer.append(sc);
        answer.append(" ");
        answer.append(sc);
        answer.append(" K");
        let mut report = String::from_str(mycall);
        report.append(" DE ");
        report.append(sc);
        report.append(" RST ");
        report.append(sr);
        report.append(" ");
        report.append(sr);
        report.append(" DOK ");
        report.append(ex.dok.as_str());
        report.append(" ");
        report.append(ex.dok.as_str());
        report.append(" <AR>");
        let mut ack_report = String::from_str("TU ");
        ack_report.append(mycall);
        ack_report.append(" RST ");
        ack_report.append(my_rst);
        ack_report.append(" ");
        ack_report.append(my_rst);
        ack_report.append(" <AR>");
        let mut sign_off = String::from_str("TU 73 DE ");
        sign_off.append(sc);
        sign_off.append(" <SK>");
        let mut contest_ex = String::from_str(sc);
        contest_ex.append(" UR RST 599 DOK ");
        contest_ex.append(my_dok);
        contest_ex.append(" ");
        contest_ex.append(my_dok);
        contest_ex.append(" <AR>");
        let r = QsoScript { cq, answer, report, ack_report, chat: Vec::new(), sign_off, contest_ex };
        proof {
            assert(r@.chat =~= Seq::<Seq<char>>::empty());
            assert(r@ =~= spec_build(mycall@, ex@, style, my_rst@, my_serial, cwt_name@, cwt_nr@, my_dok@));
        }
        r
        } else {
        let mut cq = String::from_str("CQ CQ DE ");
        cq.append(sc);
        cq.append(" ");
        cq.append(sc);
        cq.append(" K");
        let mut answer = String::from_str(mycall);
        answer.append(" DE ");
        answer.append(sc);
        answer.append(" ");
        answer.append(sc);
        answer.append(" K");
        let mut report = String::from_str(mycall);
        report.append(" DE ");
        report.append(sc);
        report.append(" GE OM UR ");
        report.append(sr);
        report.append(" ");
        report.append(sr);
        report.append(" NAME ");
        report.append(sn);
        report.append(" ");
        report.append(sn);
        report.append(" QTH ");
        report.append(sq);
        report.append(" ");
        report.append(sq);
        report.append(" HW? <AR>");
        let mut ack_report = String::from_str("TU ");
        ack_report.append(mycall);
        ack_report.append(" UR ");
        ack_report.append(my_rst);
        ack_report.append(" ");
        ack_report.append(my_rst);
        ack_report.append(" NAME ");
        ack_report.append(sn);
        ack_report.append(" QTH ");
        ack_report.append(sq);
        ack_report.append(" RIG ");
        ack_report.append(ex.rig.as_str());
        ack_report.append(" ANT ");
        ack_report.append(ex.ant.as_str());
        ack_report.append(" PWR ");
        ack_report.append(ex.pwr.as_str());
        ack_report.append(" HW? <AR>");
        let mut chat: Vec<String> = Vec::new();
        chat.push(String::from_str("WX HR FINE TEMP WARM HW UR WX? <AR>"));
        let mut chat1 = String::from_str("RIG HR ");
        chat1.append(ex.rig.as_str());
        chat1.append(" ANT ");
        chat1.append(ex.ant.as_str());
        chat1.append(" PWR ");
        chat1.append(ex.pwr.as_str());
        chat1.append(" HW UR RIG? <AR>");
        chat.push(chat1);
        chat.push(String::from_str("BEEN LIC MANY YRS NW ENJOY CW VY MUCH HW? <AR>"));
        chat.push(String::from_str("HR WE HAVE NICE QSB TODAY HW? <AR>"));
        let mut sign_off = String::from_str("OK ");
        sign_off.append(sn);
        sign_off.append(" TU FB QSO 73 ES GL DE ");
        sign_off.append(sc);
        sign_off.append(" <SK>");
        let mut contest_ex = String::from_str(mycall);
        contest_ex.append(" DE ");
        contest_ex.append(sc);
        contest_ex.append(" 599 001 001 <AR>");
        let r = QsoScript { cq, answer, report, ack_report, chat, sign_off, contest_ex };
        proof {
            assert(r@.chat =~= spec_build(
                mycall@,
                ex@,
                style,
                my_rst@,
                my_serial,
                cwt_name@,
                cwt_nr@,
                my_dok@,
            ).chat);
            assert(r@ =~= spec_build(mycall@, ex@, style, my_rst@, my_serial, cwt_name@, cwt_nr@, my_dok@));
        }
        r
        }
    }
}

} // verus!
