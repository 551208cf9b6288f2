use vstd::prelude::*;
use crate::state::{normalize_printer_state, printer_state_of, reasons_of, state_reasons, PrinterState};

verus! {

/// A printer as the directory service lists it, with its canonical state.
#[derive(Clone, Debug)]
pub struct Printer {
    pub name: String,
    pub system_name: String,
    pub driver_name: String,
    pub uri: String,
    pub port_name: String,
    pub processor: String,
    pub data_type: String,
    pub description: String,
    pub location: String,
    pub is_default: bool,
    pub is_shared: bool,
    pub state: PrinterState,
    pub state_reasons: Vec<String>,
}

/// The printer answers to `name`, by display name or by system name.
pub open spec fn answers_to(p: Printer, name: Seq<char>) -> bool {
    p.name@ == name || p.system_name@ == name
}

/// The printer at `i` is the first of the list to satisfy `matches`.
pub open spec fn is_first_match(
    printers: Seq<Printer>,
    i: int,
    matches: spec_fn(Printer) -> bool,
) -> bool {
    &&& 0 <= i < printers.len()
    &&& matches(printers[i])
    &&& forall|j: int| 0 <= j < i ==> !matches(#[trigger] printers[j])
}

/// Index of the first printer whose display name is `name`, or of the first
/// that answers to `name` by either name when `by_any_name`.
fn find_printer(printers: &Vec<Printer>, name: &String, by_any_name: bool) -> (r: Option<usize>)
    ensures
        ({
            let m = if by_any_name {
                |p: Printer| answers_to(p, name@)
            } else {
                |p: Printer| p.name@ == name@
            };
            &&& r is Some ==> is_first_match(printers@, r->0 as int, m)
            &&& r is None ==> forall|j: int| 0 <= j < printers@.len() ==> !m(#[trigger] printers@[j])
        }),
{
    let ghost m = if by_any_name {
        |p: Printer| answers_to(p, name@)
    } else {
        |p: Printer| p.name@ == name@
    };
    let mut i: usize = 0;
    while i < printers.len()
        invariant
            i <= printers@.len(),
            m == (if by_any_name {
                |p: Printer| answers_to(p, name@)
            } else {
                |p: Printer| p.name@ == name@
            }),
            forall|j: int| 0 <= j < i ==> !m(#[trigger] printers@[j]),
        decreases printers@.len() - i,
    {
        let p = &printers[i];
        let hit = p.name == *name || (by_any_name && p.system_name == *name);
        if hit {
            return Some(i);
        }
        i = i + 1;
    }
    None
}

/// The default printer among `printers`: the first whose display name is the
/// default printer's name.
pub fn get_default_printer(printers: Vec<Printer>, default_name: &String) -> (r: Option<Printer>)
    ensures
        r is Some <==> exists|i: int| 0 <= i < printers@.len() && #[trigger] printers@[i].name@
            == default_name@,
        r is Some ==> exists|i: int|
            is_first_match(printers@, i, |p: Printer| p.name@ == default_name@) && printers@[i]
                == r->0,
{
    let mut printers = printers;
    let ghost all = printers@;
    match find_printer(&printers, default_name, false) {
        Some(i) => {
            let p = printers.remove(i);
            assert(is_first_match(all, i as int, |p: Printer| p.name@ == default_name@));
            Some(p)
        },
        None => {
            assert forall|i: int| 0 <= i < all.len() implies !(#[trigger] all[i].name@
                == default_name@) by {
                assert(!(|p: Printer| p.name@ == default_name@)(all[i]));
            }
            None
        },
    }
}

/// The first of `printers` that answers to `name`, by display name or by
/// system name.
pub fn get_printer_by_name(printers: Vec<Printer>, name: &String) -> (r: Option<Printer>)
    ensures
        r is Some <==> exists|i: int| 0 <= i < printers@.len() && answers_to(
            #[trigger] printers@[i],
            name@,
        ),
        r is Some ==> exists|i: int|
            is_first_match(printers@, i, |p: Printer| answers_to(p, name@)) && printers@[i]
                == r->0,
{
    let mut printers = printers;
    let ghost all = printers@;
    match find_printer(&printers, name, true) {
        Some(i) => {
            let p = printers.remove(i);
            assert(is_first_match(all, i as int, |p: Printer| answers_to(p, name@)));
            Some(p)
        },
        None => {
            assert forall|i: int| 0 <= i < all.len() implies !answers_to(#[trigger] all[i], name@) by {
                assert(!(|p: Printer| answers_to(p, name@))(all[i]));
            }
            None
        },
    }
}

/// Read access to a printer as the platform describes it.
pub trait PlatformPrinterGetters {
    fn get_name(&self) -> String;

    fn get_system_name(&self) -> String;

    fn get_marker_and_model(&self) -> String;

    fn get_is_shared(&self) -> bool;

    fn get_uri(&self) -> String;

    fn get_location(&self) -> String;

    fn get_state(&self) -> u64;

    fn get_state_reasons(&self) -> Vec<String>;

    fn get_port_name(&self) -> String;

    fn get_processor(&self) -> String;

    fn get_description(&self) -> String;

    fn get_data_type(&self) -> String;
}

/// The fields of a printer record of the platform's directory service,
/// copied once at the boundary.
#[derive(Clone, Debug)]
pub struct PrinterRecord {
    pub name: String,
    pub driver_name: String,
    /// Attribute bits; `SHARED_ATTRIBUTE` marks a shared printer.
    pub attributes: u32,
    /// Raw status bits.
    pub status: u64,
    pub location: String,
    pub port_name: String,
    pub print_processor: String,
    pub comment: String,
    pub data_type: String,
}

/// Attribute bit of a shared printer.
pub const SHARED_ATTRIBUTE: u32 = 0x00000008;

impl PlatformPrinterGetters for PrinterRecord {
    fn get_name(&self) -> (r: String)
        ensures
            r@ == self.name@,
    {
        self.name.clone()
    }

    fn get_system_name(&self) -> (r: String)
        ensures
            r@ == self.name@,
    {
        self.name.clone()
    }

    fn get_marker_and_model(&self) -> (r: String)
        ensures
            r@ == self.driver_name@,
    {
        self.driver_name.clone()
    }

    fn get_is_shared(&self) -> (r: bool)
        ensures
            r == (self.attributes & SHARED_ATTRIBUTE == SHARED_ATTRIBUTE),
    {
        self.attributes & SHARED_ATTRIBUTE == SHARED_ATTRIBUTE
    }

    fn get_uri(&self) -> (r: String)
        ensures
            r@.len() == 0,
    {
        String::new()
    }

    fn get_location(&self) -> (r: String)
        ensures
            r@ == self.location@,
    {
        self.location.clone()
    }

    fn get_state(&self) -> (r: u64)
        ensures
            r == self.status,
    {
        self.status
    }

    fn get_state_reasons(&self) -> (r: Vec<String>)
        ensures
            r@.map_values(|s: String| s@) == reasons_of(self.status),
    {
        state_reasons(self.status)
    }

    fn get_port_name(&self) -> (r: String)
        ensures
            r@ == self.port_name@,
    {
        self.port_name.clone()
    }

    fn get_processor(&self) -> (r: String)
        ensures
            r@ == self.print_processor@,
    {
        self.print_processor.clone()
    }

    fn get_description(&self) -> (r: String)
        ensures
            r@ == self.comment@,
    {
        self.comment.clone()
    }

    fn get_data_type(&self) -> (r: String)
        ensures
            r@ == self.data_type@,
    {
        self.data_type.clone()
    }
}

/// The texts joined with a comma between each two.
pub open spec fn joined(texts: Seq<Seq<char>>) -> Seq<char>
    decreases texts.len(),
{
    if texts.len() == 0 {
        Seq::empty()
    } else if texts.len() == 1 {
        texts[0]
    } else {
        joined(texts.drop_last()) + ","@ + texts.last()
    }
}

/// Joins the texts with a comma between each two.
pub fn join_with_commas(texts: &Vec<String>) -> (r: String)
    ensures
        r@ == joined(texts@.map_values(|s: String| s@)),
{
    let ghost views = texts@.map_values(|s: String| s@);
    let mut r = String::new();
    let mut i: usize = 0;
    while i < texts.len()
        invariant
            i <= texts@.len(),
            views == texts@.map_values(|s: String| s@),
            r@ == joined(views.subrange(0, i as int)),
        decreases texts@.len() - i,
    {
        proof {
            reveal_strlit(",");
            let pre = views.subrange(0, i + 1);
            assert(pre.drop_last() =~= views.subrange(0, i as int));
            assert(pre.last() == texts@[i as int]@);
        }
        if i > 0 {
            r.append(",");
        }
        r.append(texts[i].as_str());
        i = i + 1;
    }
    proof {
        assert(views.subrange(0, texts@.len() as int) =~= views);
    }
    r
}

impl Printer {
    /// The canonical printer for a platform record: names and descriptive
    /// fields are copied, the shared flag is read from the attributes, the
    /// reasons are those of the status bits, and the state is normalized from
    /// the status bits and the reasons joined with commas. The printer is the
    /// default one when its name is `default_name`.
    pub fn from_platform_printer_getters(record: &PrinterRecord, default_name: &String) -> (r:
        Printer)
        ensures
            r.name@ == record.name@,
            r.system_name@ == record.name@,
            r.driver_name@ == record.driver_name@,
            r.uri@.len() == 0,
            r.port_name@ == record.port_name@,
            r.processor@ == record.print_processor@,
            r.data_type@ == record.data_type@,
            r.description@ == record.comment@,
            r.location@ == record.location@,
            r.is_default == (record.name@ == default_name@),
            r.is_shared == (record.attributes & SHARED_ATTRIBUTE == SHARED_ATTRIBUTE),
            r.state_reasons@.map_values(|s: String| s@) == reasons_of(record.status),
            r.state == printer_state_of(record.status, joined(reasons_of(record.status))),
    {
        let reasons = state_reasons(record.status);
        let text = join_with_commas(&reasons);
        let state = normalize_printer_state(record.status, text.as_str());
        Printer {
            name: record.name.clone(),
            system_name: record.name.clone(),
            driver_name: record.driver_name.clone(),
            uri: String::new(),
            port_name: record.port_name.clone(),
            processor: record.print_processor.clone(),
            data_type: record.data_type.clone(),
            description: record.comment.clone(),
            location: record.location.clone(),
            is_default: record.name == *default_name,
            is_shared: record.attributes & SHARED_ATTRIBUTE == SHARED_ATTRIBUTE,
            state,
            state_reasons: reasons,
        }
    }
}

} // verus!
