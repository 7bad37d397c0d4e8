use vstd::prelude::*;

verus! {

/// Stable identity of a discovered peripheral, carried as the text form
/// the scanning backend reports for the device.
#[derive(Debug)]
pub struct PeripheralId {
    pub raw: String,
}

impl View for PeripheralId {
    type V = Seq<char>;

    open spec fn view(&self) -> Seq<char> {
        self.raw@
    }
}

impl PeripheralId {
    pub fn new(raw: String) -> (r: Self)
        ensures
            r@ == raw@,
    {
        PeripheralId { raw }
    }

    /// A fresh value with the same identity text.
    pub fn duplicate(&self) -> (r: Self)
        ensures
            r@ == self@,
    {
        PeripheralId { raw: self.raw.clone() }
    }

    /// Whether two ids name the same peripheral.
    pub fn eq_id(&self, other: &Self) -> (r: bool)
        ensures
            r == (self@ == other@),
    {
        self.raw == other.raw
    }
}

/// The advertised property fields of one peripheral, already rendered to
/// plain text by the caller that reads them from the scanning backend.
/// A field the backend has no value for is `None`.
pub struct PropertyRecord {
    pub address: String,
    pub address_type: Option<String>,
    pub local_name: Option<String>,
    pub tx_power_level: Option<String>,
    pub rssi: Option<String>,
    pub manufacturer_keys: String,
    pub services: String,
    pub class: Option<String>,
}

/// The text of an optional field: absent fields render as the empty string.
pub open spec fn opt_text(o: Option<String>) -> Seq<char> {
    match o {
        Some(s) => s@,
        None => Seq::<char>::empty(),
    }
}

/// The key/value rows a peripheral's detail pane shows, given the property
/// record the backend returned (`None` when the read failed or nothing is
/// cached yet: every field then degrades to the empty string).
pub open spec fn spec_details(props: Option<PropertyRecord>) -> Seq<(Seq<char>, Seq<char>)> {
    match props {
        Some(p) => seq![
            ("Address"@, p.address@),
            ("Address Type"@, opt_text(p.address_type)),
            ("Local Name"@, opt_text(p.local_name)),
            ("Tx Power Level"@, opt_text(p.tx_power_level)),
            ("RSSI"@, opt_text(p.rssi)),
            ("Manufacturer"@, p.manufacturer_keys@),
            ("Services"@, p.services@),
            ("Class"@, opt_text(p.class)),
        ],
        None => seq![
            ("Address"@, Seq::<char>::empty()),
            ("Address Type"@, Seq::<char>::empty()),
            ("Local Name"@, Seq::<char>::empty()),
            ("Tx Power Level"@, Seq::<char>::empty()),
            ("RSSI"@, Seq::<char>::empty()),
            ("Manufacturer"@, Seq::<char>::empty()),
            ("Services"@, Seq::<char>::empty()),
            ("Class"@, Seq::<char>::empty()),
        ],
    }
}

/// The advertised name a peripheral carries, or empty when it has none.
pub open spec fn spec_local_name(props: Option<PropertyRecord>) -> Seq<char> {
    match props {
        Some(p) => opt_text(p.local_name),
        None => Seq::<char>::empty(),
    }
}

/// One row of a snapshot: identity, advertised name, and the rendered
/// property fields.
pub struct PeripheralInfo {
    pub id: PeripheralId,
    pub local_name: String,
    pub details: Vec<(String, String)>,
}

/// Mathematical image of one snapshot row.
pub struct PeripheralInfoView {
    pub id: Seq<char>,
    pub local_name: Seq<char>,
    pub details: Seq<(Seq<char>, Seq<char>)>,
}

impl View for PeripheralInfo {
    type V = PeripheralInfoView;

    open spec fn view(&self) -> PeripheralInfoView {
        PeripheralInfoView {
            id: self.id@,
            local_name: self.local_name@,
            details: self.details@.map_values(|p: (String, String)| (p.0@, p.1@)),
        }
    }
}

fn opt_or_empty(o: Option<String>) -> (r: String)
    ensures
        r@ == opt_text(o),
{
    match o {
        Some(s) => s,
        None => String::new(),
    }
}

impl PeripheralInfo {
    /// Build the row for one peripheral from what the backend reported.
    /// A missing property record degrades every field to the empty string
    /// rather than failing the refresh.
    pub fn new(id: PeripheralId, props: Option<PropertyRecord>) -> (r: Self)
        ensures
            r@.id == id@,
            r@.local_name == spec_local_name(props),
            r@.details == spec_details(props),
    {
        let ghost gprops = props;
        let mut details: Vec<(String, String)> = Vec::new();
        let local_name: String;
        match props {
            Some(p) => {
                local_name = opt_or_empty(p.local_name.clone());
                details.push(("Address".to_owned(), p.address));
                details.push(("Address Type".to_owned(), opt_or_empty(p.address_type)));
                details.push(("Local Name".to_owned(), opt_or_empty(p.local_name)));
                details.push(("Tx Power Level".to_owned(), opt_or_empty(p.tx_power_level)));
                details.push(("RSSI".to_owned(), opt_or_empty(p.rssi)));
                details.push(("Manufacturer".to_owned(), p.manufacturer_keys));
                details.push(("Services".to_owned(), p.services));
                details.push(("Class".to_owned(), opt_or_empty(p.class)));
            },
            None => {
                local_name = String::new();
                details.push(("Address".to_owned(), String::new()));
                details.push(("Address Type".to_owned(), String::new()));
                details.push(("Local Name".to_owned(), String::new()));
                details.push(("Tx Power Level".to_owned(), String::new()));
                details.push(("RSSI".to_owned(), String::new()));
                details.push(("Manufacturer".to_owned(), String::new()));
                details.push(("Services".to_owned(), String::new()));
                details.push(("Class".to_owned(), String::new()));
            },
        }
        let r = PeripheralInfo { id, local_name, details };
        proof {
            assert(r@.details =~= spec_details(gprops));
        }
        r
    }

    /// A fresh row equal to this one.
    pub fn duplicate(&self) -> (r: Self)
        ensures
            r@ == self@,
    {
        let mut details: Vec<(String, String)> = Vec::new();
        let mut i: usize = 0;
        while i < self.details.len()
            invariant
                i <= self.details.len(),
                details@ == self.details@.subrange(0, i as int),
            decreases self.details.len() - i,
        {
            let pair = (self.details[i].0.clone(), self.details[i].1.clone());
            details.push(pair);
            i = i + 1;
        }
        proof {
            assert(details@ =~= self.details@);
        }
        let r = PeripheralInfo {
            id: self.id.duplicate(),
            local_name: self.local_name.clone(),
            details,
        };
        proof {
            assert(r@ =~= self@) by {
                assert(r@.details =~= self@.details);
            }
        }
        r
    }

    /// The name the list pane shows: the advertised name, or the identity
    /// text when no name was advertised.
    pub fn display_name(&self) -> (r: &String)
        ensures
            r@ == spec_display_name(self@),
    {
        if self.local_name.as_str().is_empty() {
            &self.id.raw
        } else {
            &self.local_name
        }
    }
}

/// What the list pane shows for a row: the advertised name, falling back
/// to the identity text when the name is empty.
pub open spec fn spec_display_name(p: PeripheralInfoView) -> Seq<char> {
    if p.local_name.len() == 0 {
        p.id
    } else {
        p.local_name
    }
}

/// The rows of a peripheral list, each taken to its mathematical image.
pub open spec fn rows_view(s: Seq<PeripheralInfo>) -> Seq<PeripheralInfoView> {
    s.map_values(|p: PeripheralInfo| p@)
}

/// A fresh list of rows equal to the given one.
pub fn duplicate_rows(v: &Vec<PeripheralInfo>) -> (r: Vec<PeripheralInfo>)
    ensures
        rows_view(r@) == rows_view(v@),
{
    let mut r: Vec<PeripheralInfo> = Vec::new();
    let mut i: usize = 0;
    while i < v.len()
        invariant
            i <= v.len(),
            r@.len() == i,
            forall|j: int| 0 <= j < i ==> #[trigger] r@[j]@ == v@[j]@,
        decreases v.len() - i,
    {
        r.push(v[i].duplicate());
        i = i + 1;
    }
    proof {
        assert(rows_view(r@) =~= rows_view(v@));
    }
    r
}

} // verus!
