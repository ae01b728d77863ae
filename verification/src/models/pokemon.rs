use vstd::prelude::*;

use crate::errors::errors::PokeError;

verus! {

/// The pokemon data transfer object: the payload that the service answers
/// with. `description` is either the raw English flavor text or its
/// translated replacement.
#[derive(Clone, Debug)]
pub struct PokemonDto {
    pub name: String,
    pub description: String,
    pub habitat: String,
    pub is_legendary: bool,
}

/// The mathematical content of a `PokemonDto`: each text field as a sequence
/// of characters.
#[verifier::ext_equal]
pub struct PokemonView {
    pub name: Seq<char>,
    pub description: Seq<char>,
    pub habitat: Seq<char>,
    pub is_legendary: bool,
}

impl View for PokemonDto {
    type V = PokemonView;

    open spec fn view(&self) -> PokemonView {
        PokemonView {
            name: self.name@,
            description: self.description@,
            habitat: self.habitat@,
            is_legendary: self.is_legendary,
        }
    }
}

impl PokemonDto {
    pub fn new(name: String, description: String, habitat: String, is_legendary: bool) -> (dto:
        PokemonDto)
        ensures
            dto.name == name,
            dto.description == description,
            dto.habitat == habitat,
            dto.is_legendary == is_legendary,
    {
        PokemonDto { name, description, habitat, is_legendary }
    }

    /// Replaces the description and leaves every other field as it was.
    pub fn set_description(&mut self, description: String)
        ensures
            final(self).description == description,
            final(self).name == old(self).name,
            final(self).habitat == old(self).habitat,
            final(self).is_legendary == old(self).is_legendary,
    {
        self.description = description
    }
}

/// Whether a lookup answers with the raw description (`BASIC`) or asks for
/// the description to be rewritten by a translation service (`TRANSLATED`).
#[allow(non_camel_case_types)]
#[derive(Clone, Copy, Debug, PartialEq, Eq, Structural)]
pub enum PokemonType {
    TRANSLATED,
    BASIC,
}

/// A name together with a url, as the species service repeats throughout its
/// response.
#[derive(Clone, Debug)]
pub struct NameAndUrl {
    pub name: String,
    pub url: String,
}

/// One flavor-text entry of the species response, tagged with its language.
#[derive(Clone, Debug)]
pub struct Flavor {
    pub flavor_text: String,
    pub language: NameAndUrl,
    pub version: NameAndUrl,
}

/// The species service's answer: the canonical name, the habitat, whether
/// the species is legendary, and the list of flavor-text entries.
#[derive(Clone, Debug)]
pub struct SpeciesResponse {
    pub name: String,
    pub habitat: NameAndUrl,
    pub is_legendary: bool,
    pub flavor_text_entries: Vec<Flavor>,
}

/// The translation service's answer.
#[derive(Clone, Debug)]
pub struct Translation {
    pub contents: Contents,
}

#[derive(Clone, Debug)]
pub struct Contents {
    pub translated: String,
}

/// Service interface: anything that can produce a pokemon payload.
pub trait PokemonRetriever {
    fn catch_pokemon(&self) -> PokemonDto;
}

/// Habitat names keep every character but literal backslashes and double
/// quotes, which are stripped defensively.
pub open spec fn keeps_habitat_char(c: char) -> bool {
    c != '\\' && c != '"'
}

/// The habitat name after the defensive cleanup.
pub open spec fn sanitized_habitat(s: Seq<char>) -> Seq<char> {
    s.filter(|c: char| keeps_habitat_char(c))
}

/// Newlines inside a description are replaced by single spaces; everything
/// else stays.
pub open spec fn space_for_newline(c: char) -> char {
    if c == '\n' {
        ' '
    } else {
        c
    }
}

/// The description text with every newline replaced by a space.
pub open spec fn normalized_text(s: Seq<char>) -> Seq<char> {
    s.map_values(|c: char| space_for_newline(c))
}

/// An entry counts as English exactly when its language tag is `en`.
pub open spec fn is_english(entry: Flavor) -> bool {
    entry.language.name@ == "en"@
}

/// The text of the last English entry of the list, if the list has one:
/// the entry that wins when several entries match.
pub open spec fn last_english_text(entries: Seq<Flavor>) -> Option<Seq<char>>
    decreases entries.len(),
{
    if entries.len() == 0 {
        None
    } else if is_english(entries.last()) {
        Some(entries.last().flavor_text@)
    } else {
        last_english_text(entries.drop_last())
    }
}

/// Relies on `String::from_iter` (through `Iterator::collect`): the
/// resulting string holds exactly the characters of the vector, in order.
#[verifier::external_body]
fn chars_to_string(chars: &Vec<char>) -> (r: String)
    ensures
        r@ == chars@,
{
    chars.iter().collect()
}

/// Strips literal backslash and double-quote characters from a habitat name.
pub fn sanitize_habitat(raw: &str) -> (r: String)
    ensures
        r@ == sanitized_habitat(raw@),
{
    let n: usize = raw.unicode_len();
    let mut kept: Vec<char> = Vec::new();
    let mut i: usize = 0;
    while i < n
        invariant
            n == raw@.len(),
            i <= n,
            kept@ == sanitized_habitat(raw@.take(i as int)),
        decreases n - i,
    {
        let c = raw.get_char(i);
        if c != '\\' && c != '"' {
            kept.push(c);
        }
        proof {
            reveal_with_fuel(Seq::filter, 2);
            assert(raw@.take(i as int + 1).drop_last() =~= raw@.take(i as int));
            assert(raw@.take(i as int + 1).last() == raw@[i as int]);
            assert(kept@ == sanitized_habitat(raw@.take(i as int + 1)));
        }
        i = i + 1;
    }
    proof {
        assert(raw@.take(n as int) =~= raw@);
    }
    chars_to_string(&kept)
}

/// Replaces every newline of a description with a single space.
pub fn normalize_text(raw: &str) -> (r: String)
    ensures
        r@ == normalized_text(raw@),
{
    let n: usize = raw.unicode_len();
    let mut spaced: Vec<char> = Vec::new();
    let mut i: usize = 0;
    while i < n
        invariant
            n == raw@.len(),
            i <= n,
            spaced@ == normalized_text(raw@.take(i as int)),
        decreases n - i,
    {
        let c = raw.get_char(i);
        if c == '\n' {
            spaced.push(' ');
        } else {
            spaced.push(c);
        }
        proof {
            assert(spaced@ =~= normalized_text(raw@.take(i as int + 1)));
        }
        i = i + 1;
    }
    proof {
        assert(raw@.take(n as int) =~= raw@);
    }
    chars_to_string(&spaced)
}

/// Whether an entry is tagged with the English language code.
fn is_english_entry(entry: &Flavor) -> (r: bool)
    ensures
        r == is_english(*entry),
{
    entry.language.name == "en".to_owned()
}

/// The normalized description: the text of the last English flavor entry,
/// newlines replaced by spaces. `None` when no entry is English.
pub fn extract_description(entries: &Vec<Flavor>) -> (r: Option<String>)
    ensures
        match last_english_text(entries@) {
            Some(text) => r matches Some(d) && d@ == normalized_text(text),
            None => r is None,
        },
{
    let mut found: Option<usize> = None;
    let mut i: usize = 0;
    while i < entries.len()
        invariant
            i <= entries@.len(),
            match found {
                Some(j) => j < i && last_english_text(entries@.take(i as int)) == Some(
                    entries@[j as int].flavor_text@,
                ),
                None => last_english_text(entries@.take(i as int)) is None,
            },
        decreases entries@.len() - i,
    {
        proof {
            assert(entries@.take(i as int + 1).drop_last() =~= entries@.take(i as int));
            assert(entries@.take(i as int + 1).last() == entries@[i as int]);
        }
        if is_english_entry(&entries[i]) {
            found = Some(i);
        }
        i = i + 1;
    }
    proof {
        assert(entries@.take(entries@.len() as int) =~= entries@);
    }
    match found {
        Some(j) => Some(normalize_text(entries[j].flavor_text.as_str())),
        None => None,
    }
}

/// The text of the winning English entry; the empty sequence when there is
/// none (in that case the lookup fails and no description is built).
pub open spec fn english_text_of(species: SpeciesResponse) -> Seq<char> {
    match last_english_text(species.flavor_text_entries@) {
        Some(text) => text,
        None => Seq::empty(),
    }
}

/// The normalized facts that a species response resolves to: the canonical
/// name, the sanitized habitat, the legendary flag, and the normalized
/// description.
pub open spec fn facts_of(species: SpeciesResponse) -> PokemonView {
    PokemonView {
        name: species.name@,
        description: normalized_text(english_text_of(species)),
        habitat: sanitized_habitat(species.habitat.name@),
        is_legendary: species.is_legendary,
    }
}

/// Derives the pokemon payload from a species response: sanitizes the
/// habitat, extracts and normalizes the English description, and keeps name
/// and legendary flag. A response without any English flavor entry is
/// unusable and fails the lookup.
pub fn species_to_pokemon(species: &SpeciesResponse) -> (r: Result<PokemonDto, PokeError>)
    ensures
        last_english_text(species.flavor_text_entries@) is Some ==> (r matches Ok(pokemon)
            && pokemon@ == facts_of(*species)),
        last_english_text(species.flavor_text_entries@) is None ==> (r matches Err(e) && e
            == PokeError::ServiceUnavailable),
{
    match extract_description(&species.flavor_text_entries) {
        None => Err(PokeError::ServiceUnavailable),
        Some(description) => {
            let habitat = sanitize_habitat(species.habitat.name.as_str());
            let pokemon = PokemonDto::new(
                species.name.clone(),
                description,
                habitat,
                species.is_legendary,
            );
            proof {
                assert(pokemon@ =~= facts_of(*species));
            }
            Ok(pokemon)
        },
    }
}

/// The two prose styles a description can be rewritten in. `Solemn` maps to
/// the yoda-style engine, `Archaic` to the shakespeare-style engine.
#[derive(Clone, Copy, Debug, PartialEq, Eq, Structural)]
pub enum TranslationStyle {
    Solemn,
    Archaic,
}

/// The style selection rule: cave dwellers and legendaries speak solemnly,
/// everything else speaks archaically. The habitat comparison is exact and
/// case-sensitive, on the sanitized habitat name.
pub open spec fn selected_style(habitat: Seq<char>, is_legendary: bool) -> TranslationStyle {
    if habitat == "cave"@ || is_legendary {
        TranslationStyle::Solemn
    } else {
        TranslationStyle::Archaic
    }
}

/// Picks the translation style from the pokemon's facts.
pub fn select_style(pokemon: &PokemonDto) -> (style: TranslationStyle)
    ensures
        style == selected_style(pokemon.habitat@, pokemon.is_legendary),
{
    if pokemon.habitat == "cave".to_owned() || pokemon.is_legendary {
        TranslationStyle::Solemn
    } else {
        TranslationStyle::Archaic
    }
}

/// The fixed translation endpoint of each style.
pub open spec fn style_endpoint(style: TranslationStyle) -> Seq<char> {
    match style {
        TranslationStyle::Solemn => "https://api.funtranslations.com/translate/yoda.json"@,
        TranslationStyle::Archaic => "https://api.funtranslations.com/translate/shakespeare.json"@,
    }
}

/// The url of the translation service that serves the given style.
pub fn endpoint_url(style: TranslationStyle) -> (r: String)
    ensures
        r@ == style_endpoint(style),
{
    match style {
        TranslationStyle::Solemn => "https://api.funtranslations.com/translate/yoda.json".to_owned(),
        TranslationStyle::Archaic => "https://api.funtranslations.com/translate/shakespeare.json".to_owned(),
    }
}

/// The species lookup url for a given (already lowercased) species name.
pub open spec fn species_url(name: Seq<char>) -> Seq<char> {
    "https://pokeapi.co/api/v2/pokemon-species/"@ + name + "/"@
}

/// Interpolates the species name into the fixed species-service path.
pub fn build_species_url(name: &str) -> (r: String)
    ensures
        r@ == species_url(name@),
{
    let prefix = "https://pokeapi.co/api/v2/pokemon-species/".to_owned();
    let with_name = prefix.concat(name);
    with_name.concat("/")
}

/// What came back from the species service: either the transport failed, or
/// a status arrived, with the parsed body when the status was 200 and the
/// body was well-formed.
#[derive(Debug)]
pub enum FetchEvent {
    TransportFailed,
    Response { status: u16, species: Option<SpeciesResponse> },
}

/// What came back from the translation service: either the transport
/// failed, or a status arrived, with the parsed payload when the status was
/// 200 and the body was well-formed.
#[derive(Debug)]
pub enum TranslateEvent {
    TransportFailed,
    Response { status: u16, translation: Option<Translation> },
}

/// One request's progress: the next outbound call to make, or the final
/// outcome. The caller performs the call and feeds the event back.
#[derive(Debug)]
pub enum Step {
    FetchSpecies { url: String },
    Translate { pokemon: PokemonDto, url: String },
    Done { pokemon: PokemonDto },
    Failed { error: PokeError },
}

/// Every translation failure: rejected with a non-200 status, unreachable,
/// or a 200 whose body was unusable.
#[derive(Clone, Copy, Debug, PartialEq, Eq, Structural)]
pub enum TranslateError {
    Rejected(u16),
    Unreachable,
    BadResponse,
}

/// The transition taken on the species service's answer: 404 fails the
/// request as not found; any other non-200 answer, a failed transport, an
/// unusable body, and a body without English flavor text fail it as
/// unavailable; a usable 200 resolves the facts and either finishes (basic
/// lookup) or moves on to the style's translation endpoint.
pub open spec fn species_step(service: PokemonService, event: FetchEvent, step: Step) -> bool {
    match event {
        FetchEvent::TransportFailed => step == (Step::Failed {
            error: PokeError::ServiceUnavailable,
        }),
        FetchEvent::Response { status, species } => {
            if status == 404 {
                step == (Step::Failed { error: PokeError::NotFound })
            } else if status != 200 {
                step == (Step::Failed { error: PokeError::ServiceUnavailable })
            } else {
                match species {
                    None => step == (Step::Failed { error: PokeError::ServiceUnavailable }),
                    Some(sp) => {
                        if last_english_text(sp.flavor_text_entries@) is None {
                            step == (Step::Failed { error: PokeError::ServiceUnavailable })
                        } else {
                            match service.pokemon_type {
                                PokemonType::BASIC => {
                                    &&& step matches Step::Done { pokemon }
                                    &&& pokemon@ == facts_of(sp)
                                },
                                PokemonType::TRANSLATED => {
                                    &&& step matches Step::Translate { pokemon, url }
                                    &&& pokemon@ == facts_of(sp)
                                    &&& url@ == style_endpoint(
                                        selected_style(
                                            sanitized_habitat(sp.habitat.name@),
                                            sp.is_legendary,
                                        ),
                                    )
                                },
                            }
                        }
                    },
                }
            }
        },
    }
}

/// The description after the translation stage: the translated text when
/// the service answered 200 with a usable payload, the original text in
/// every other case.
pub open spec fn translated_description(original: Seq<char>, event: TranslateEvent) -> Seq<char> {
    match event {
        TranslateEvent::TransportFailed => original,
        TranslateEvent::Response { status, translation } => {
            if status == 200 {
                match translation {
                    Some(t) => t.contents.translated@,
                    None => original,
                }
            } else {
                original
            }
        },
    }
}

/// The transition taken on the translation service's answer: the request
/// always finishes successfully; only the description can change, and it
/// falls back to the original text on any translation failure.
pub open spec fn translation_step(pokemon: PokemonDto, event: TranslateEvent, step: Step) -> bool {
    &&& step matches Step::Done { pokemon: p }
    &&& p.name@ == pokemon.name@
    &&& p.habitat@ == pokemon.habitat@
    &&& p.is_legendary == pokemon.is_legendary
    &&& p.description@ == translated_description(pokemon.description@, event)
}

/// The request-scoped service: `description` holds the queried species name
/// (already lowercased by the routing layer), and `pokemon_type` says
/// whether the description is to be translated.
pub struct PokemonService {
    pub description: String,
    pub pokemon_type: PokemonType,
}

impl PokemonService {
    pub fn new(description: String, pokemon_type: PokemonType) -> (service: PokemonService)
        ensures
            service.description == description,
            service.pokemon_type == pokemon_type,
    {
        PokemonService { description, pokemon_type }
    }

    /// A request starts by fetching the species facts.
    pub fn start(&self) -> (step: Step)
        ensures
            step matches Step::FetchSpecies { url } && url@ == species_url(self.description@),
    {
        Step::FetchSpecies { url: build_species_url(self.description.as_str()) }
    }

    /// Advances the request on the species service's answer.
    pub fn on_species_event(&self, event: FetchEvent) -> (step: Step)
        ensures
            species_step(*self, event, step),
    {
        match event {
            FetchEvent::TransportFailed => Step::Failed { error: PokeError::ServiceUnavailable },
            FetchEvent::Response { status, species } => {
                if status == 404 {
                    Step::Failed { error: PokeError::NotFound }
                } else if status != 200 {
                    Step::Failed { error: PokeError::ServiceUnavailable }
                } else {
                    match species {
                        None => Step::Failed { error: PokeError::ServiceUnavailable },
                        Some(sp) => match species_to_pokemon(&sp) {
                            Err(error) => Step::Failed { error },
                            Ok(pokemon) => match self.pokemon_type {
                                PokemonType::BASIC => Step::Done { pokemon },
                                PokemonType::TRANSLATED => {
                                    let style = select_style(&pokemon);
                                    let url = endpoint_url(style);
                                    Step::Translate { pokemon, url }
                                },
                            },
                        },
                    }
                }
            },
        }
    }
}

/// Classifies the translation service's answer: the translated text on a
/// usable 200, the exact failure otherwise.
pub fn translation_result(event: &TranslateEvent) -> (r: Result<String, TranslateError>)
    ensures
        match *event {
            TranslateEvent::TransportFailed => r == Err::<String, TranslateError>(
                TranslateError::Unreachable,
            ),
            TranslateEvent::Response { status, translation } => {
                if status == 200 {
                    match translation {
                        Some(t) => r matches Ok(text) && text@ == t.contents.translated@,
                        None => r == Err::<String, TranslateError>(TranslateError::BadResponse),
                    }
                } else {
                    r == Err::<String, TranslateError>(TranslateError::Rejected(status))
                }
            },
        },
{
    match event {
        TranslateEvent::TransportFailed => Err(TranslateError::Unreachable),
        TranslateEvent::Response { status, translation } => {
            if *status == 200 {
                match translation {
                    Some(t) => Ok(t.contents.translated.clone()),
                    None => Err(TranslateError::BadResponse),
                }
            } else {
                Err(TranslateError::Rejected(*status))
            }
        },
    }
}

/// Finishes the request on the translation service's answer: the
/// description is replaced on success and kept on any failure; the request
/// itself always succeeds.
pub fn on_translation_event(pokemon: PokemonDto, event: TranslateEvent) -> (step: Step)
    ensures
        translation_step(pokemon, event, step),
{
    match translation_result(&event) {
        Ok(text) => {
            let mut updated = pokemon;
            updated.set_description(text);
            Step::Done { pokemon: updated }
        },
        Err(_) => Step::Done { pokemon },
    }
}

/// Law: a species lookup answered with 404 fails the whole request as not
/// found; in particular the machine never reaches the translation stage.
pub proof fn lemma_not_found_never_translates(
    service: PokemonService,
    species: Option<SpeciesResponse>,
    step: Step,
)
    requires
        species_step(service, (FetchEvent::Response { status: 404, species }), step),
    ensures
        step == (Step::Failed { error: PokeError::NotFound }),
        !(step is Translate),
{
}

/// Law: the style selection is exhaustive over the habitat-equality and
/// legendary product — `Solemn` exactly for a cave habitat or a legendary,
/// `Archaic` in every other case.
pub proof fn lemma_style_selection_exhaustive(habitat: Seq<char>, is_legendary: bool)
    ensures
        selected_style(habitat, is_legendary) == TranslationStyle::Solemn <==> (habitat == "cave"@
            || is_legendary),
        selected_style(habitat, is_legendary) == TranslationStyle::Archaic <==> !(habitat
            == "cave"@ || is_legendary),
{
}

/// Law: when the translation service answers non-200, is unreachable, or
/// sends an unusable body, the request still finishes successfully and the
/// payload is unchanged — the description is the untranslated text.
pub proof fn lemma_translation_failure_falls_back(
    pokemon: PokemonDto,
    event: TranslateEvent,
    step: Step,
)
    requires
        translation_step(pokemon, event, step),
        !(event matches TranslateEvent::Response { status, translation } && status == 200
            && translation is Some),
    ensures
        step matches Step::Done { pokemon: p } && p@ == pokemon@,
{
    assert(step matches Step::Done { pokemon: p } && p@ =~= pokemon@);
}

/// Law: when the translation service answers 200 with a usable payload, the
/// final description is exactly the payload's translated text, whatever the
/// original description was; every other field is unchanged.
pub proof fn lemma_translation_success_replaces(
    pokemon: PokemonDto,
    translation: Translation,
    step: Step,
)
    requires
        translation_step(
            pokemon,
            (TranslateEvent::Response { status: 200, translation: Some(translation) }),
            step,
        ),
    ensures
        step matches Step::Done { pokemon: p } && p.description@
            == translation.contents.translated@ && p.name@ == pokemon.name@ && p.habitat@
            == pokemon.habitat@ && p.is_legendary == pokemon.is_legendary,
{
}

/// Law: a basic lookup reproduces the species service's facts — the name
/// and legendary flag as sent, the habitat with backslashes and quotes
/// stripped, and the winning English flavor text with newlines collapsed to
/// spaces.
pub proof fn lemma_basic_lookup_reflects_species(
    service: PokemonService,
    species: SpeciesResponse,
    step: Step,
)
    requires
        service.pokemon_type is BASIC,
        last_english_text(species.flavor_text_entries@) is Some,
        species_step(service, (FetchEvent::Response { status: 200, species: Some(species) }), step),
    ensures
        step matches Step::Done { pokemon } && pokemon.name@ == species.name@ && pokemon.habitat@
            == sanitized_habitat(species.habitat.name@) && pokemon.is_legendary
            == species.is_legendary && pokemon.description@ == normalized_text(
            english_text_of(species),
        ),
{
}

} // verus!
