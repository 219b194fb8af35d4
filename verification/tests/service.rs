use gw2fashionista::fashion::{Fashion, FashionBuilder};
use gw2fashionista::names::TagName;
use gw2fashionista::service::{Answer, Error, Next, Op, Reply, Request, Service};
use std::sync::Arc;

fn tags(names: &[&str]) -> Vec<TagName> {
    names.iter().map(|n| TagName::try_new(n).unwrap()).collect()
}

fn texts(tags: &[TagName]) -> Vec<String> {
    tags.iter().map(|t| t.as_str().to_string()).collect()
}

fn id(n: u128) -> uuid::Uuid {
    uuid::Uuid::from_u128(n)
}

/// A repository of one stored fashion, which records the requests it gets.
struct Repo {
    stored: Option<Fashion>,
    tags: Vec<TagName>,
    log: Vec<String>,
    gives_ids: bool,
}

impl Repo {
    fn new() -> Repo {
        Repo { stored: None, tags: Vec::new(), log: Vec::new(), gives_ids: true }
    }

    fn perform(&mut self, request: Request) -> Reply {
        match request {
            Request::InsertFashion(f) => {
                self.log.push("insert".to_string());
                let f = if self.gives_ids { f.with_id(id(7)) } else { f };
                self.stored = Some(f.clone());
                Reply::Fashion(Fashion { tags: Vec::new(), ..f })
            }
            Request::UpdateFashion(f) => {
                self.log.push(format!("update {}", f.name.as_str()));
                self.stored = Some(f.clone());
                Reply::Fashion(Fashion { tags: tags(&["stale"]), ..f })
            }
            Request::GetFashionByName { name, character } => {
                self.log.push(format!("by name {} {:?}", name, character));
                Reply::Fashion(self.stored.clone().unwrap())
            }
            Request::GetFashionById(i) => {
                self.log.push(format!("by id {}", i.as_u128()));
                Reply::Fashion(self.stored.clone().unwrap())
            }
            Request::GetFashionTags(i) => {
                self.log.push(format!("tags of {}", i.as_u128()));
                Reply::Tags(self.tags.iter().map(|t| t.clone()).collect())
            }
            Request::RemoveAllFashionTags(i) => {
                self.log.push(format!("untag {}", i.as_u128()));
                self.tags.clear();
                Reply::Done
            }
            Request::EnsureFashionTags(i, t) => {
                self.log.push(format!("tag {} {:?}", i.as_u128(), texts(&t)));
                for tag in t {
                    if !self.tags.contains(&tag) {
                        self.tags.push(tag);
                    }
                }
                Reply::Done
            }
        }
    }

    fn run(&mut self, mut next: Next<String>) -> Result<Answer, Error<String>> {
        loop {
            match next {
                Next::Finish(result) => return result,
                Next::Ask(op, request) => {
                    let reply = self.perform(request);
                    next = op.step(reply);
                }
            }
        }
    }
}

fn fashion_of(answer: Result<Answer, Error<String>>) -> Fashion {
    match answer {
        Ok(Answer::Fashion(f)) => f,
        other => panic!("not a fashion: {:?}", other),
    }
}

fn zizi(tag_names: &[&str]) -> Fashion {
    FashionBuilder::new()
        .name_str("Zizi")
        .unwrap()
        .character_str("zizi skyhoof")
        .unwrap()
        .tags(tags(tag_names))
        .build()
        .unwrap()
}

#[test]
fn service_keeps_its_repository() {
    let repo = Arc::new(5u8);
    let service = Service::new(repo.clone());
    assert!(Arc::ptr_eq(service.repository(), &repo));
}

#[test]
fn create_stores_then_tags_the_stored_fashion() {
    let mut repo = Repo::new();
    let created = fashion_of(repo.run(Op::create(zizi(&["rain", "snow"]))));
    assert_eq!(created.id, Some(id(7)));
    assert_eq!(texts(&created.tags), vec!["rain", "snow"]);
    assert_eq!(repo.log, vec!["insert", "tag 7 [\"rain\", \"snow\"]"]);
}

#[test]
fn create_without_an_id_fails() {
    let mut repo = Repo::new();
    repo.gives_ids = false;
    let result = repo.run(Op::create(zizi(&["rain"])));
    assert!(matches!(result, Err(Error::MissingFashionId)));
    assert_eq!(repo.log, vec!["insert"]);
    assert_eq!(Error::<String>::MissingFashionId.message(), Some("Fashion template has no id"));
    assert_eq!(Error::Repository("down".to_string()).message(), None);
}

#[test]
fn get_reads_the_tags_of_the_found_fashion() {
    let mut repo = Repo::new();
    repo.run(Op::create(zizi(&["rain"]))).unwrap();
    let identifier = gw2fashionista::fashion::FashionIdentifier::from_fashion(&zizi(&[]));
    let found = fashion_of(repo.run(Op::get(identifier)));
    assert_eq!(found.id, Some(id(7)));
    assert_eq!(texts(&found.tags), vec!["rain"]);
    assert_eq!(
        repo.log[2..],
        ["by name Zizi Some(\"Zizi Skyhoof\")".to_string(), "tags of 7".to_string()]
    );
}

#[test]
fn resolve_id_needs_no_request_for_an_id() {
    let mut repo = Repo::new();
    let identifier = gw2fashionista::fashion::FashionIdentifier::Id(id(3));
    assert!(matches!(repo.run(Op::resolve_id(identifier)), Ok(Answer::Id(i)) if i == id(3)));
    assert!(repo.log.is_empty());
}

#[test]
fn resolve_id_by_name_finds_the_fashion() {
    let mut repo = Repo::new();
    repo.run(Op::create(zizi(&[]))).unwrap();
    let identifier = gw2fashionista::fashion::FashionIdentifier::from_fashion(&zizi(&[]));
    assert!(matches!(repo.run(Op::resolve_id(identifier)), Ok(Answer::Id(i)) if i == id(7)));
}

#[test]
fn set_replaces_the_tags() {
    let mut repo = Repo::new();
    repo.run(Op::create(zizi(&["rain", "snow"]))).unwrap();
    let set = fashion_of(repo.run(Op::set(zizi(&["sun"]))));
    assert_eq!(set.id, Some(id(7)));
    assert_eq!(texts(&set.tags), vec!["sun"]);
    assert_eq!(texts(&repo.tags), vec!["sun"]);
    assert_eq!(
        repo.log[2..],
        [
            "by name Zizi Some(\"Zizi Skyhoof\")".to_string(),
            "tags of 7".to_string(),
            "update Zizi".to_string(),
            "untag 7".to_string(),
            "tag 7 [\"sun\"]".to_string(),
        ]
    );
}

#[test]
fn set_with_an_id_stores_at_once() {
    let mut repo = Repo::new();
    let f = zizi(&["sun"]).with_id(id(9));
    let set = fashion_of(repo.run(Op::set(f)));
    assert_eq!(set.id, Some(id(9)));
    assert_eq!(repo.log, vec!["update Zizi", "untag 9", "tag 9 [\"sun\"]"]);
}

#[test]
fn patch_merges_into_the_found_fashion() {
    let mut repo = Repo::new();
    repo.run(Op::create(zizi(&["rain"]))).unwrap();
    let change = FashionBuilder::new()
        .name_str("Zizi")
        .unwrap()
        .character_str("zizi skyhoof")
        .unwrap()
        .description("windy".to_string())
        .tags(tags(&["snow", "rain"]))
        .build()
        .unwrap();
    let patched = fashion_of(repo.run(Op::patch(change)));
    assert_eq!(patched.description.as_deref(), Some("windy"));
    assert_eq!(texts(&patched.tags), vec!["rain", "snow"]);
    assert_eq!(texts(&repo.tags), vec!["rain", "snow"]);
    assert_eq!(repo.log.last().unwrap(), "tag 7 [\"snow\", \"rain\"]");
}

#[test]
fn a_reply_of_the_wrong_kind_asks_again() {
    let next: Next<String> = Op::create(zizi(&[]));
    let Next::Ask(op, first) = next else { panic!("should ask") };
    assert!(matches!(first, Request::InsertFashion(_)));
    match op.step::<String>(Reply::Done) {
        Next::Ask(Op::Inserting(f), Request::InsertFashion(g)) => {
            assert_eq!(f.name.as_str(), "Zizi");
            assert_eq!(g.name.as_str(), "Zizi");
        }
        other => panic!("should ask again: {:?}", other),
    }
}

#[test]
fn retrieving_tags_needs_an_id() {
    let result: Next<String> = Op::retrieve_tags(zizi(&[]));
    assert!(matches!(result, Next::Finish(Err(Error::MissingFashionId))));
    let mut repo = Repo::new();
    repo.tags = tags(&["rain"]);
    let f = fashion_of(repo.run(Op::retrieve_tags(zizi(&[]).with_id(id(4)))));
    assert_eq!(texts(&f.tags), vec!["rain"]);
    assert_eq!(repo.log, vec!["tags of 4"]);
}

#[test]
fn secret_errors_say_what_was_invalid() {
    let e = gw2fashionista::secret::Error::Invalid { message: "empty API key".to_string() };
    assert_eq!(e.message(), "invalid value: empty API key");
}
