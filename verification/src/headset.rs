//! Looks for the mute key of a headset: listens to its USB interfaces and writes down every
//! change.

use vstd::prelude::*;

use crate::text::decimal;
use crate::text::hex;
use crate::text::hex_number;
use crate::text::join;
use crate::text::joined;
use crate::text::number;
use crate::text::signed_decimal;
use crate::text::signed_number;
use crate::text::texts;

verus! {

/// The number of the manufacturer whose devices are looked for.
pub const ROCCAT_VID: u16 = 0x1e7d;

/// How long it listens: 12 s.
pub const SCAN_TIME: u64 = 12_000_000_000;

/// An interface of a device.
pub struct Interface {
    pub vendor: u16,
    pub product: u16,
    pub product_name: Option<String>,
    pub number: i32,
    pub usage_page: u16,
    pub usage: u16,
}

/// A number with four hexadecimal digits.
pub open spec fn hex4(n: u16) -> Seq<char> {
    "0x"@ + hex(n as nat, 4)
}

/// What an interface is called in the report.
pub open spec fn called(i: Interface) -> Seq<char> {
    "Gerät "@ + hex4(i.vendor) + ":"@ + hex4(i.product) + " „"@ + (match i.product_name {
        Some(n) => n@,
        None => "?"@,
    }) + "“, Schnittstelle "@ + signed_decimal(i.number as int) + ", Verwendung "@ + hex4(i.usage_page) + "/"@ + hex4(
        i.usage,
    )
}

fn add_hex4(s: &mut String, n: u16)
    ensures
        final(s)@ == old(s)@ + hex4(n),
{
    s.append("0x");
    s.append(hex_number(n as u32, 4).as_str());
    assert(s@ =~= old(s)@ + hex4(n));
}

impl Interface {
    /// Whether it belongs to the headset.
    pub fn wanted(&self) -> (r: bool)
        ensures
            r == (self.vendor == ROCCAT_VID),
    {
        self.vendor == ROCCAT_VID
    }

    /// What it is called in the report.
    pub fn name(&self) -> (s: String)
        ensures
            s@ == called(*self),
    {
        let mut s = String::new();
        s.append("Gerät ");
        add_hex4(&mut s, self.vendor);
        s.append(":");
        add_hex4(&mut s, self.product);
        s.append(" „");
        match &self.product_name {
            Some(n) => s.append(n.as_str()),
            None => s.append("?"),
        }
        s.append("“, Schnittstelle ");
        s.append(signed_number(self.number as i64).as_str());
        s.append(", Verwendung ");
        add_hex4(&mut s, self.usage_page);
        s.append("/");
        add_hex4(&mut s, self.usage);
        assert(s@ =~= called(*self));
        s
    }
}

/// The bytes of a packet in hexadecimal with spaces between them.
pub open spec fn packet_text(bytes: Seq<u8>) -> Seq<char> {
    joined(bytes.map_values(|b: u8| hex(b as nat, 2)), " "@)
}

fn bytes_in_hex(bytes: &Vec<u8>) -> (s: String)
    ensures
        s@ == packet_text(bytes@),
{
    let mut list: Vec<String> = Vec::new();
    let mut i: usize = 0;
    while i < bytes.len()
        invariant
            i <= bytes@.len(),
            list@.len() == i,
            forall|j: int| 0 <= j < i ==> (#[trigger] list@[j])@ == hex(bytes@[j] as nat, 2),
        decreases bytes@.len() - i,
    {
        list.push(hex_number(bytes[i] as u32, 2));
        i = i + 1;
    }
    assert(texts(list@) =~= bytes@.map_values(|b: u8| hex(b as nat, 2)));
    join(&list, " ")
}

/// `n` in a field of three.
pub open spec fn in_three(n: nat) -> Seq<char> {
    (if n < 10 {
        "  "@
    } else if n < 100 {
        " "@
    } else {
        ""@
    }) + decimal(n)
}

/// The report of a scan, and the last packet of each interface.
pub struct Scan {
    pub report: String,
    pub last: Vec<Option<Vec<u8>>>,
    pub lines: u64,
}

/// What a report begins with.
pub open spec fn heading(version: Seq<char>) -> Seq<char> {
    "Lärmampel v"@ + version
        + " – Suche nach der Mute-Taste\nGesucht wird nach Geräten von ROCCAT (Hersteller-Nummer 0x1e7d).\n\n"@
}

/// The packets of each interface as they were last.
pub open spec fn packets(last: Seq<Option<Vec<u8>>>) -> Seq<Option<Seq<u8>>> {
    last.map_values(
        |p: Option<Vec<u8>>|
            match p {
                Some(v) => Some(v@),
                None => None,
            },
    )
}

/// Begins a scan; there is one only under Windows.
pub fn scan(windows: bool, version: &str) -> (r: Result<Scan, String>)
    ensures
        r is Ok <==> windows,
        r matches Err(e) ==> e@ == "Nur unter Windows"@,
        r matches Ok(s) ==> s.report@ == heading(version@) && s.last@.len() == 0 && s.lines == 0,
{
    if !windows {
        return Err("Nur unter Windows".to_string());
    }
    let mut report = String::new();
    report.append("Lärmampel v");
    report.append(version);
    report.append(
        " – Suche nach der Mute-Taste\nGesucht wird nach Geräten von ROCCAT (Hersteller-Nummer 0x1e7d).\n\n",
    );
    assert(report@ =~= heading(version@));
    Ok(Scan { report, last: Vec::new(), lines: 0 })
}

/// The line for a packet: when, from which interface, how long, and its bytes.
pub open spec fn packet_line(seconds: Seq<char>, number: nat, bytes: Seq<u8>) -> Seq<char> {
    seconds + "s  ["@ + decimal(number) + "]           "@ + in_three(bytes.len()) + "    "@ + packet_text(bytes) + "\n"@
}

impl Scan {
    /// An interface could be opened. Says which number it has.
    pub fn opened(&mut self, i: &Interface) -> (n: usize)
        ensures
            n == old(self).last@.len(),
            final(self).report@ == old(self).report@ + ("["@ + decimal(n as nat) + "] "@ + called(*i) + "\n"@),
            packets(final(self).last@) == packets(old(self).last@).push(None),
            final(self).lines == old(self).lines,
    {
        let n: usize = self.last.len();
        self.report.append("[");
        self.report.append(number(n as u64).as_str());
        self.report.append("] ");
        self.report.append(i.name().as_str());
        self.report.append("\n");
        assert(self.report@ =~= old(self).report@ + ("["@ + decimal(n as nat) + "] "@ + called(*i) + "\n"@));
        self.last.push(None);
        assert(packets(self.last@) =~= packets(old(self).last@).push(None));
        n
    }

    /// An interface could be opened but not be listened to.
    pub fn deaf(&mut self, i: &Interface, error: &str)
        ensures
            final(self).report@ == old(self).report@ + (called(*i) + ": lässt sich nicht auf Mithören stellen ("@ + error@
                + ")\n"@),
            final(self).last == old(self).last,
            final(self).lines == old(self).lines,
    {
        self.report.append(i.name().as_str());
        self.report.append(": lässt sich nicht auf Mithören stellen (");
        self.report.append(error);
        self.report.append(")\n");
        assert(self.report@ =~= old(self).report@ + (called(*i) + ": lässt sich nicht auf Mithören stellen ("@ + error@
            + ")\n"@));
    }

    /// An interface could not be opened. That is usual: others hold some of them.
    pub fn taken(&mut self, i: &Interface, error: &str)
        ensures
            final(self).report@ == old(self).report@ + ("(belegt) "@ + called(*i) + ": "@ + error@ + "\n"@),
            final(self).last == old(self).last,
            final(self).lines == old(self).lines,
    {
        self.report.append("(belegt) ");
        self.report.append(i.name().as_str());
        self.report.append(": ");
        self.report.append(error);
        self.report.append("\n");
        assert(self.report@ =~= old(self).report@ + ("(belegt) "@ + called(*i) + ": "@ + error@ + "\n"@));
    }

    /// All interfaces were tried. Says whether there is any to listen to.
    pub fn begin(&mut self) -> (r: Result<(), String>)
        ensures
            r is Ok <==> old(self).last@.len() > 0,
            r matches Err(e) ==> e@ == "Keine Schnittstelle zum Mithören gefunden"@,
            final(self).report@ == old(self).report@ + (if r is Ok {
                "\nMitschrift (nur Änderungen). Jetzt die Mute-Taste mehrmals drücken:\nZeit    Schnittstelle  Länge  Pakethalt\n"@
            } else {
                "\nKeine Schnittstelle ließ sich öffnen. Läuft die ROCCAT-Software (Swarm/Neon)? Die hält die Schnittstellen unter Umständen für sich – dann bitte beenden und nochmal.\n"@
            }),
            final(self).last == old(self).last,
            final(self).lines == old(self).lines,
    {
        if self.last.len() == 0 {
            self.report.append(
                "\nKeine Schnittstelle ließ sich öffnen. Läuft die ROCCAT-Software (Swarm/Neon)? Die hält die Schnittstellen unter Umständen für sich – dann bitte beenden und nochmal.\n",
            );
            Err("Keine Schnittstelle zum Mithören gefunden".to_string())
        } else {
            self.report.append(
                "\nMitschrift (nur Änderungen). Jetzt die Mute-Taste mehrmals drücken:\nZeit    Schnittstelle  Länge  Pakethalt\n",
            );
            Ok(())
        }
    }

    /// Whether it goes on listening.
    pub fn listens(elapsed: u64) -> (r: bool)
        ensures
            r == (elapsed < SCAN_TIME),
    {
        elapsed < SCAN_TIME
    }

    /// A packet is worth a line: it is not empty, and not what the interface sent before.
    pub open spec fn is_news(self, n: int, bytes: Seq<u8>) -> bool {
        bytes.len() > 0 && packets(self.last@)[n] != Some(bytes)
    }

    /// A packet from interface `n` at the time `seconds`. Says whether it was written down.
    pub fn packet(&mut self, n: usize, bytes: Vec<u8>, seconds: &str) -> (written: bool)
        requires
            n < old(self).last@.len(),
            old(self).lines < u64::MAX,
        ensures
            written == old(self).is_news(n as int, bytes@),
            final(self).report@ == if written {
                old(self).report@ + packet_line(seconds@, n as nat, bytes@)
            } else {
                old(self).report@
            },
            packets(final(self).last@) == if written {
                packets(old(self).last@).update(n as int, Some(bytes@))
            } else {
                packets(old(self).last@)
            },
            final(self).lines == if written {
                old(self).lines + 1
            } else {
                old(self).lines as int
            },
    {
        if bytes.len() == 0 {
            return false;
        }
        let repeated = match &self.last[n] {
            Some(before) => same_bytes(before, &bytes),
            None => false,
        };
        if repeated {
            return false;
        }
        let length: usize = bytes.len();
        self.report.append(seconds);
        self.report.append("s  [");
        self.report.append(number(n as u64).as_str());
        self.report.append("]           ");
        if length < 10 {
            self.report.append("  ");
        } else if length < 100 {
            self.report.append(" ");
        } else {
            self.report.append("");
        }
        self.report.append(number(length as u64).as_str());
        self.report.append("    ");
        self.report.append(bytes_in_hex(&bytes).as_str());
        self.report.append("\n");
        assert(self.report@ =~= old(self).report@ + packet_line(seconds@, n as nat, bytes@));
        self.last.set(n, Some(bytes));
        assert(packets(self.last@) =~= packets(old(self).last@).update(n as int, Some(bytes@)));
        self.lines = self.lines + 1;
        true
    }

    /// The end of the report.
    pub fn finish(&mut self)
        ensures
            final(self).report@ == old(self).report@ + (if old(self).lines == 0 {
                "\nEs kam gar nichts an. Entweder meldet das Headset die Taste nicht über USB, oder die geöffneten Schnittstellen sind die falschen.\n"@
            } else {
                "\n"@ + decimal(old(self).lines as nat) + " Änderungen mitgeschrieben.\n"@
            }),
            final(self).last == old(self).last,
            final(self).lines == old(self).lines,
    {
        if self.lines == 0 {
            self.report.append(
                "\nEs kam gar nichts an. Entweder meldet das Headset die Taste nicht über USB, oder die geöffneten Schnittstellen sind die falschen.\n",
            );
        } else {
            self.report.append("\n");
            self.report.append(number(self.lines).as_str());
            self.report.append(" Änderungen mitgeschrieben.\n");
            assert(self.report@ =~= old(self).report@ + ("\n"@ + decimal(old(self).lines as nat)
                + " Änderungen mitgeschrieben.\n"@));
        }
    }
}

fn same_bytes(a: &Vec<u8>, b: &Vec<u8>) -> (r: bool)
    ensures
        r == (a@ == b@),
{
    if a.len() != b.len() {
        return false;
    }
    let mut i: usize = 0;
    while i < a.len()
        invariant
            i <= a@.len(),
            a@.len() == b@.len(),
            forall|j: int| 0 <= j < i ==> a@[j] == b@[j],
        decreases a@.len() - i,
    {
        if a[i] != b[i] {
            return false;
        }
        i = i + 1;
    }
    assert(a@ =~= b@);
    true
}

/// The same packet again is not written down twice in a row.
pub proof fn law_repeats_are_left_out(before: Scan, after: Scan, n: int, bytes: Seq<u8>)
    requires
        0 <= n < before.last@.len(),
        before.is_news(n, bytes),
        packets(after.last@) == packets(before.last@).update(n, Some(bytes)),
    ensures
        !after.is_news(n, bytes),
{
}

/// A packet is written down exactly where it holds something and is not what the interface sent
/// last; with it the count goes up and the report grows.
pub proof fn law_changes_are_written_down(s: &mut Scan, n: usize, bytes: Vec<u8>, seconds: &str, written: bool)
    requires
        n < old(s).last@.len(),
        old(s).lines < u64::MAX,
        call_ensures(Scan::packet, (s, n, bytes, seconds), written),
    ensures
        bytes@.len() == 0 ==> !written,
        bytes@.len() > 0 && old(s).last@[n as int] is None ==> written,
        bytes@.len() > 0 ==> (old(s).last@[n as int] matches Some(before) ==> (written <==> before@ != bytes@)),
        written ==> final(s).lines == old(s).lines + 1 && final(s).report@.len() > old(s).report@.len() && old(
            s).report@.is_prefix_of(final(s).report@),
        !written ==> final(s).lines == old(s).lines && final(s).report@ == old(s).report@,
{
    assert(packets(old(s).last@)[n as int] == (match old(s).last@[n as int] {
        Some(v) => Some(v@),
        None => None,
    }));
    if written {
        let line = packet_line(seconds@, n as nat, bytes@);
        reveal_strlit("\n");
        assert(line.len() > 0);
        assert(old(s).report@ =~= final(s).report@.subrange(0, old(s).report@.len() as int));
    }
}

/// It is listened to devices of one manufacturer, for 12 s.
pub proof fn law_who_is_listened_to(i: &Interface, wanted: bool, elapsed: u64, listens: bool)
    requires
        call_ensures(Interface::wanted, (i,), wanted),
        call_ensures(Scan::listens, (elapsed,), listens),
    ensures
        wanted <==> i.vendor == 0x1e7d,
        listens <==> elapsed < 12_000_000_000,
{
}

/// A scan begins under Windows only; each interface gets the next number, and there is something to
/// listen to as soon as there is one.
pub proof fn law_interfaces_are_numbered(
    windows: bool,
    version: &str,
    r: Result<Scan, String>,
    s: &mut Scan,
    i: &Interface,
    n: usize,
    t: &mut Scan,
    begun: Result<(), String>,
)
    requires
        call_ensures(scan, (windows, version), r),
        call_ensures(Scan::opened, (s, i), n),
        call_ensures(Scan::begin, (t,), begun),
    ensures
        r is Ok <==> windows,
        n == old(s).last@.len() && final(s).last@.len() == n + 1,
        old(s).report@.is_prefix_of(final(s).report@),
        begun is Ok <==> old(t).last@.len() > 0,
        old(t).report@.is_prefix_of(final(t).report@),
{
    assert(packets(final(s).last@).len() == final(s).last@.len());
    assert(packets(old(s).last@).len() == old(s).last@.len());
    assert(old(s).report@ =~= final(s).report@.subrange(0, old(s).report@.len() as int));
    assert(old(t).report@ =~= final(t).report@.subrange(0, old(t).report@.len() as int));
}

} // verus!
