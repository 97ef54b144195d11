use crate::Redmine;
use vstd::prelude::*;

verus! {

/// How a server locale writes dates: a strftime-like pattern, and the lowercase
/// word that stands for the current day.
#[derive(Clone, Debug)]
pub struct LocaleInfo {
    pub date_format: String,
    pub today_word: String,
}

impl LocaleInfo {
    pub fn new(date_format: &str, today_word: &str) -> (r: LocaleInfo)
        ensures
            r.date_format@ == date_format@,
            r.today_word@ == today_word@,
    {
        LocaleInfo { date_format: String::from_str(date_format), today_word: String::from_str(today_word) }
    }
}

/// One row of the table: tag, date format, word for "today".
pub open spec fn row_view(e: (String, LocaleInfo)) -> (Seq<char>, Seq<char>, Seq<char>) {
    (e.0@, e.1.date_format@, e.1.today_word@)
}

/// The locales that a server may present pages in.
pub open spec fn known_locales() -> Seq<(Seq<char>, Seq<char>, Seq<char>)> {
    seq![
        ("lv"@, "%d.%m.%Y"@, "šodien"@),
        ("th"@, "%Y-%m-%d"@, "วันนี้"@),
        ("zh"@, "%Y-%m-%d"@, "今天"@),
        ("da"@, "%d.%m.%Y"@, "i dag"@),
        ("pt"@, "%d/%m/%Y"@, "hoje"@),
        ("ja"@, "%Y/%m/%d"@, "今日"@),
        ("pl"@, "%Y-%m-%d"@, "dzisiaj"@),
        ("lt"@, "%m/%d/%Y"@, "šiandien"@),
        ("fa"@, "%Y/%m/%d"@, "امروز"@),
        ("gl"@, "%e/%m/%Y"@, "hoxe"@),
        ("uk"@, "%Y-%m-%d"@, "сьогодні"@),
        ("vi"@, "%d-%m-%Y"@, "hôm nay"@),
        ("mn"@, "%Y/%m/%d"@, "өнөөдөр"@),
        ("cs"@, "%Y-%m-%d"@, "dnes"@),
        ("en-GB"@, "%d/%m/%Y"@, "today"@),
        ("fr"@, "%d/%m/%Y"@, "aujourd'hui"@),
        ("sr"@, "%d.%m.%Y."@, "данас"@),
        ("fi"@, "%e. %Bta %Y"@, "tänään"@),
        ("no"@, "%d.%m.%Y"@, "idag"@),
        ("mk"@, "%d/%m/%Y"@, "денес"@),
        ("hu"@, "%Y.%m.%d."@, "ma"@),
        ("ro"@, "%d-%m-%Y"@, "astăzi"@),
        ("it"@, "%d-%m-%Y"@, "oggi"@),
        ("he"@, "%d/%m/%Y"@, "היום"@),
        ("es"@, "%Y-%m-%d"@, "hoy"@),
        ("en"@, "%m/%d/%Y"@, "today"@),
        ("sq"@, "%m/%d/%Y"@, "sot"@),
        ("eu"@, "%Y/%m/%d"@, "gaur"@),
        ("id"@, "%d-%m-%Y"@, "hari ini"@),
        ("de"@, "%d.%m.%Y"@, "heute"@),
        ("bg"@, "%d-%m-%Y"@, "днес"@),
        ("sv"@, "%Y-%m-%d"@, "idag"@),
        ("sk"@, "%Y-%m-%d"@, "dnes"@),
        ("ko"@, "%Y/%m/%d"@, "오늘"@),
        ("et"@, "%d.%m.%Y"@, "täna"@),
        ("hr"@, "%m/%d/%Y"@, "danas"@),
        ("el"@, "%m/%d/%Y"@, "σήμερα"@),
        ("zh-TW"@, "%Y-%m-%d"@, "今天"@),
        ("sr-YU"@, "%d.%m.%Y."@, "danas"@),
        ("bs"@, "%d.%m.%Y"@, "danas"@),
        ("tr"@, "%d.%m.%Y"@, "bugün"@),
        ("ru"@, "%d.%m.%Y"@, "сегодня"@),
        ("es-PA"@, "%Y-%m-%d"@, "hoy"@),
        ("ar"@, "%m/%d/%Y"@, "اليوم"@),
        ("sl"@, "%d.%m.%Y"@, "danes"@),
        ("az"@, "%d.%m.%Y"@, "bu gün"@),
        ("ca"@, "%d-%m-%Y"@, "avui"@),
        ("pt-BR"@, "%d/%m/%Y"@, "hoje"@),
        ("nl"@, "%d-%m-%Y"@, "vandaag"@),
    ]
}

/// The table of locales, keyed by tag.
pub struct LocaleTable {
    pub entries: Vec<(String, LocaleInfo)>,
}

impl LocaleTable {
    pub open spec fn rows(&self) -> Seq<(Seq<char>, Seq<char>, Seq<char>)> {
        self.entries@.map_values(|e: (String, LocaleInfo)| row_view(e))
    }

    /// The entry for `tag`, if the table has one.
    pub fn get(&self, tag: &str) -> (r: Option<&LocaleInfo>)
        ensures
            r is None <==> forall|i: int| 0 <= i < self.entries@.len() ==> self.entries@[i].0@ != tag@,
            r matches Some(l) ==> exists|i: int|
                0 <= i < self.entries@.len() && self.entries@[i].0@ == tag@ && *l == self.entries@[i].1
                && forall|j: int| 0 <= j < i ==> self.entries@[j].0@ != tag@,
    {
        let key = String::from_str(tag);
        let mut i: usize = 0;
        while i < self.entries.len()
            invariant
                key@ == tag@,
                i <= self.entries@.len(),
                forall|j: int| 0 <= j < i ==> self.entries@[j].0@ != tag@,
            decreases self.entries.len() - i,
        {
            if self.entries[i].0 == key {
                return Some(&self.entries[i].1);
            }
            i = i + 1;
        }
        None
    }
}

impl Redmine {
    /// The table of every locale that a server may present pages in.
    #[verifier::rlimit(50)]
    pub fn redmine_locales() -> (r: LocaleTable)
        ensures
            r.rows() == known_locales(),
    {
        let mut v: Vec<(String, LocaleInfo)> = Vec::new();
    v.push((String::from_str("lv"), LocaleInfo::new("%d.%m.%Y", "šodien")));
    v.push((String::from_str("th"), LocaleInfo::new("%Y-%m-%d", "วันนี้")));
    v.push((String::from_str("zh"), LocaleInfo::new("%Y-%m-%d", "今天")));
    v.push((String::from_str("da"), LocaleInfo::new("%d.%m.%Y", "i dag")));
    v.push((String::from_str("pt"), LocaleInfo::new("%d/%m/%Y", "hoje")));
    v.push((String::from_str("ja"), LocaleInfo::new("%Y/%m/%d", "今日")));
    v.push((String::from_str("pl"), LocaleInfo::new("%Y-%m-%d", "dzisiaj")));
    v.push((String::from_str("lt"), LocaleInfo::new("%m/%d/%Y", "šiandien")));
    v.push((String::from_str("fa"), LocaleInfo::new("%Y/%m/%d", "امروز")));
    v.push((String::from_str("gl"), LocaleInfo::new("%e/%m/%Y", "hoxe")));
    v.push((String::from_str("uk"), LocaleInfo::new("%Y-%m-%d", "сьогодні")));
    v.push((String::from_str("vi"), LocaleInfo::new("%d-%m-%Y", "hôm nay")));
    v.push((String::from_str("mn"), LocaleInfo::new("%Y/%m/%d", "өнөөдөр")));
    v.push((String::from_str("cs"), LocaleInfo::new("%Y-%m-%d", "dnes")));
    v.push((String::from_str("en-GB"), LocaleInfo::new("%d/%m/%Y", "today")));
    v.push((String::from_str("fr"), LocaleInfo::new("%d/%m/%Y", "aujourd'hui")));
    v.push((String::from_str("sr"), LocaleInfo::new("%d.%m.%Y.", "данас")));
    v.push((String::from_str("fi"), LocaleInfo::new("%e. %Bta %Y", "tänään")));
    v.push((String::from_str("no"), LocaleInfo::new("%d.%m.%Y", "idag")));
    v.push((String::from_str("mk"), LocaleInfo::new("%d/%m/%Y", "денес")));
    v.push((String::from_str("hu"), LocaleInfo::new("%Y.%m.%d.", "ma")));
    v.push((String::from_str("ro"), LocaleInfo::new("%d-%m-%Y", "astăzi")));
    v.push((String::from_str("it"), LocaleInfo::new("%d-%m-%Y", "oggi")));
    v.push((String::from_str("he"), LocaleInfo::new("%d/%m/%Y", "היום")));
    v.push((String::from_str("es"), LocaleInfo::new("%Y-%m-%d", "hoy")));
    v.push((String::from_str("en"), LocaleInfo::new("%m/%d/%Y", "today")));
    v.push((String::from_str("sq"), LocaleInfo::new("%m/%d/%Y", "sot")));
    v.push((String::from_str("eu"), LocaleInfo::new("%Y/%m/%d", "gaur")));
    v.push((String::from_str("id"), LocaleInfo::new("%d-%m-%Y", "hari ini")));
    v.push((String::from_str("de"), LocaleInfo::new("%d.%m.%Y", "heute")));
    v.push((String::from_str("bg"), LocaleInfo::new("%d-%m-%Y", "днес")));
    v.push((String::from_str("sv"), LocaleInfo::new("%Y-%m-%d", "idag")));
    v.push((String::from_str("sk"), LocaleInfo::new("%Y-%m-%d", "dnes")));
    v.push((String::from_str("ko"), LocaleInfo::new("%Y/%m/%d", "오늘")));
    v.push((String::from_str("et"), LocaleInfo::new("%d.%m.%Y", "täna")));
    v.push((String::from_str("hr"), LocaleInfo::new("%m/%d/%Y", "danas")));
    v.push((String::from_str("el"), LocaleInfo::new("%m/%d/%Y", "σήμερα")));
    v.push((String::from_str("zh-TW"), LocaleInfo::new("%Y-%m-%d", "今天")));
    v.push((String::from_str("sr-YU"), LocaleInfo::new("%d.%m.%Y.", "danas")));
    v.push((String::from_str("bs"), LocaleInfo::new("%d.%m.%Y", "danas")));
    v.push((String::from_str("tr"), LocaleInfo::new("%d.%m.%Y", "bugün")));
    v.push((String::from_str("ru"), LocaleInfo::new("%d.%m.%Y", "сегодня")));
    v.push((String::from_str("es-PA"), LocaleInfo::new("%Y-%m-%d", "hoy")));
    v.push((String::from_str("ar"), LocaleInfo::new("%m/%d/%Y", "اليوم")));
    v.push((String::from_str("sl"), LocaleInfo::new("%d.%m.%Y", "danes")));
    v.push((String::from_str("az"), LocaleInfo::new("%d.%m.%Y", "bu gün")));
    v.push((String::from_str("ca"), LocaleInfo::new("%d-%m-%Y", "avui")));
    v.push((String::from_str("pt-BR"), LocaleInfo::new("%d/%m/%Y", "hoje")));
    v.push((String::from_str("nl"), LocaleInfo::new("%d-%m-%Y", "vandaag")));
        let r = LocaleTable { entries: v };
        assert(r.rows() =~= known_locales());
        r
    }
}

} // verus!
