use std::sync::Arc;

use crossbeam::channel::unbounded;
use sha2::Digest;
use hackathon::checksum::Checksum;
use hackathon::idea::{Idea, IdeaGenerator};
use hackathon::package::{Package, PackageDownloader};
use hackathon::partition::per_thread_amount;
use hackathon::read_ideas;
use hackathon::student::Student;
use hackathon::{Event, PipelineError};

fn strings(names: &[&str]) -> Vec<String> {
    names.iter().map(|n| n.to_string()).collect()
}

/// Runs one idea generator and one package downloader sequentially on the
/// current thread and drains every enqueued event, returning the events and
/// the two produced checksums.
fn produce(
    pairs: &Arc<Vec<(String, String)>>,
    packages: &Arc<Vec<String>>,
    num_ideas: usize,
    num_students: usize,
    num_packages: usize,
) -> (Vec<Event>, Checksum, Checksum) {
    let (send, recv) = unbounded::<Event>();
    let mut generator = IdeaGenerator::new(
        pairs.clone(),
        0,
        num_ideas,
        num_students,
        num_packages,
        send.clone(),
    );
    let idea_ck = generator.run().expect("send failed");
    let mut downloader = PackageDownloader::new(packages.clone(), 0, num_packages, send);
    let pkg_ck = downloader.run().expect("send failed");
    let mut events = Vec::new();
    while let Ok(event) = recv.try_recv() {
        events.push(event);
    }
    (events, idea_ck, pkg_ck)
}

#[test]
fn cross_product_is_product_major() {
    let products = strings(&["App", "Bot"]);
    let customers = strings(&["Students", "Farmers"]);
    let pairs = read_ideas(&products, &customers);
    assert_eq!(pairs.len(), 4);
    assert_eq!(pairs[0], ("App".to_string(), "Students".to_string()));
    assert_eq!(pairs[1], ("App".to_string(), "Farmers".to_string()));
    assert_eq!(pairs[2], ("Bot".to_string(), "Students".to_string()));
    assert_eq!(pairs[3], ("Bot".to_string(), "Farmers".to_string()));
}

#[test]
fn idea_names_wrap_around_with_the_cross_product_period() {
    let products = strings(&["App", "Bot"]);
    let customers = strings(&["Students", "Farmers"]);
    let pairs = Arc::new(read_ideas(&products, &customers));
    let packages = Arc::new(strings(&["left-pad"]));
    // Eight ideas over a name space of four pairs: the names repeat.
    let (events, _, _) = produce(&pairs, &packages, 8, 1, 0);
    let names: Vec<String> = events
        .iter()
        .filter_map(|e| match e {
            Event::NewIdea(idea) => Some(idea.name.clone()),
            _ => None,
        })
        .collect();
    assert_eq!(names.len(), 8);
    for i in 0..4 {
        assert_eq!(names[i], names[i + 4]);
    }
    assert_eq!(names[0], "App for Students");
    assert_eq!(names[1], "App for Farmers");
    assert_eq!(names[2], "Bot for Students");
    assert_eq!(names[3], "Bot for Farmers");
}

#[test]
fn emitted_work_matches_the_configuration() {
    let products = strings(&["App", "Bot"]);
    let customers = strings(&["Students", "Farmers"]);
    let pairs = Arc::new(read_ideas(&products, &customers));
    let packages = Arc::new(strings(&["left-pad", "is-even"]));
    let (events, _, _) = produce(&pairs, &packages, 4, 2, 6);
    let mut ideas: usize = 0;
    let mut pkgs: usize = 0;
    let mut pills: usize = 0;
    let mut package_budget: usize = 0;
    for event in &events {
        match event {
            Event::NewIdea(idea) => {
                ideas += 1;
                package_budget += idea.num_packages;
            }
            Event::DownloadComplete(_) => pkgs += 1,
            Event::OutOfIdeas => pills += 1,
        }
    }
    assert_eq!(ideas, 4);
    assert_eq!(pkgs, 6);
    assert_eq!(pills, 2);
    // The generator's package budget is split across its ideas.
    assert_eq!(package_budget, 6);
    for (i, event) in events.iter().take(4).enumerate() {
        if let Event::NewIdea(idea) = event {
            assert_eq!(idea.num_packages, per_thread_amount(i, 6, 4));
        } else {
            panic!("ideas are emitted first");
        }
    }
}

/// Feeds a student one idea and exactly the packages it requires, drawn from
/// the front of the queues, then returns whether the student stopped.
fn feed_round(
    student: &mut Student,
    ideas: &mut Vec<Event>,
    packages: &mut Vec<Event>,
) -> Result<(), PipelineError> {
    let idea_event = ideas.remove(0);
    let required = match &idea_event {
        Event::NewIdea(idea) => idea.num_packages,
        _ => panic!("expected an idea event"),
    };
    student.process_event(idea_event)?;
    for _ in 0..required {
        student.process_event(packages.remove(0))?;
    }
    Ok(())
}

#[test]
fn end_to_end_checksums_converge() {
    // The fixed seed dataset: produced and consumed checksums must match.
    let products = strings(&["App", "Bot"]);
    let customers = strings(&["Students", "Farmers"]);
    let pairs = Arc::new(read_ideas(&products, &customers));
    let packages = Arc::new(strings(&["left-pad", "is-even"]));
    let (events, produced_idea, produced_pkg) = produce(&pairs, &packages, 4, 2, 4);
    assert_eq!(events.len(), 4 + 2 + 4);

    let mut idea_events = Vec::new();
    let mut package_events = Vec::new();
    let mut pill_events = Vec::new();
    for event in events {
        match event {
            Event::NewIdea(_) => idea_events.push(event),
            Event::DownloadComplete(_) => package_events.push(event),
            Event::OutOfIdeas => pill_events.push(event),
        }
    }

    // One valid interleaving: the first student builds everything and stops
    // on the first termination signal; the second stops at once.
    let mut first = Student::new(0);
    while !idea_events.is_empty() {
        feed_round(&mut first, &mut idea_events, &mut package_events).expect("protocol violation");
    }
    assert_eq!(first.process_event(pill_events.remove(0)), Ok(true));
    let (first_ideas, first_pkgs) = first.checksums();

    let mut second = Student::new(1);
    assert_eq!(second.process_event(pill_events.remove(0)), Ok(true));
    let (second_ideas, second_pkgs) = second.checksums();

    let consumed_idea = first_ideas.combine(&second_ideas);
    let consumed_pkg = first_pkgs.combine(&second_pkgs);
    assert_eq!(produced_idea.to_hex(), consumed_idea.to_hex());
    assert_eq!(produced_pkg.to_hex(), consumed_pkg.to_hex());
}

#[test]
fn rerunning_with_identical_inputs_is_deterministic() {
    let products = strings(&["App", "Bot"]);
    let customers = strings(&["Students", "Farmers"]);
    let pairs = Arc::new(read_ideas(&products, &customers));
    let packages = Arc::new(strings(&["left-pad", "is-even"]));
    let (_, idea_a, pkg_a) = produce(&pairs, &packages, 4, 2, 4);
    let (_, idea_b, pkg_b) = produce(&pairs, &packages, 4, 2, 4);
    assert!(idea_a == idea_b);
    assert!(pkg_a == pkg_b);
}

#[test]
fn split_production_merges_to_the_same_checksums() {
    // Two generators and three downloaders cover the same work as one of
    // each: the merged local checksums are identical.
    let products = strings(&["App", "Bot", "Site"]);
    let customers = strings(&["Students", "Farmers"]);
    let pairs = Arc::new(read_ideas(&products, &customers));
    let packages = Arc::new(strings(&["left-pad", "is-even", "chalk"]));
    let (_, idea_single, pkg_single) = produce(&pairs, &packages, 10, 4, 13);

    let (send, recv) = unbounded::<Event>();
    let mut idea_merged = Checksum::default();
    let mut start: usize = 0;
    for i in 0..2 {
        let count = per_thread_amount(i, 10, 2);
        let budget = per_thread_amount(i, 13, 2);
        let students = per_thread_amount(i, 4, 2);
        let mut generator =
            IdeaGenerator::new(pairs.clone(), start, count, students, budget, send.clone());
        idea_merged.update(generator.run().expect("send failed"));
        start += count;
    }
    let mut pkg_merged = Checksum::default();
    let mut start: usize = 0;
    for i in 0..3 {
        let count = per_thread_amount(i, 13, 3);
        let mut downloader =
            PackageDownloader::new(packages.clone(), start, count, send.clone());
        pkg_merged.update(downloader.run().expect("send failed"));
        start += count;
    }
    drop(send);
    drop(recv);
    assert!(idea_merged == idea_single);
    assert!(pkg_merged == pkg_single);
}

#[test]
fn waiting_student_rejects_a_package() {
    let mut student = Student::new(3);
    let event = Event::DownloadComplete(Package {
        name: "left-pad".to_string(),
    });
    assert_eq!(
        student.process_event(event),
        Err(PipelineError::ProtocolViolation)
    );
}

#[test]
fn collecting_student_rejects_ideas_and_signals() {
    let mut student = Student::new(4);
    let idea = Event::NewIdea(Idea {
        name: "App for Students".to_string(),
        num_packages: 2,
    });
    assert_eq!(student.process_event(idea), Ok(false));
    let second_idea = Event::NewIdea(Idea {
        name: "Bot for Farmers".to_string(),
        num_packages: 1,
    });
    assert_eq!(
        student.process_event(second_idea),
        Err(PipelineError::ProtocolViolation)
    );
    assert_eq!(
        student.process_event(Event::OutOfIdeas),
        Err(PipelineError::ProtocolViolation)
    );
}

#[test]
fn build_log_records_one_build_exactly() {
    let mut student = Student::new(7);
    let idea = Event::NewIdea(Idea {
        name: "App for Students".to_string(),
        num_packages: 1,
    });
    assert_eq!(student.process_event(idea), Ok(false));
    let package = Event::DownloadComplete(Package {
        name: "left-pad".to_string(),
    });
    assert_eq!(student.process_event(package), Ok(false));

    let idea_digest = sha2::Sha256::digest("App for Students".as_bytes());
    let pkg_digest = sha2::Sha256::digest("left-pad".as_bytes());
    let mut idea_hex = String::new();
    let mut pkg_hex = String::new();
    for b in idea_digest {
        idea_hex += &format!("{:02x}", b);
    }
    for b in pkg_digest {
        pkg_hex += &format!("{:02x}", b);
    }
    let expected = format!(
        "\nStudent 7 built App for Students using 1 packages\nIdea checksum: {}\nPackage checksum: {}\n> left-pad\n",
        idea_hex, pkg_hex
    );
    assert_eq!(student.done_message().as_str(), expected.as_str());
}

#[test]
fn idea_with_no_packages_builds_at_once() {
    let mut student = Student::new(0);
    let idea = Event::NewIdea(Idea {
        name: "Bot for Farmers".to_string(),
        num_packages: 0,
    });
    assert_eq!(student.process_event(idea), Ok(false));
    let (ideas, _) = student.checksums();
    assert_eq!(
        ideas.to_hex(),
        Checksum::with_sha256("Bot for Farmers").to_hex()
    );
    assert!(student
        .done_message()
        .contains("Student 0 built Bot for Farmers using 0 packages"));
}

#[test]
fn torn_down_channel_is_fatal() {
    let products = strings(&["App"]);
    let customers = strings(&["Students"]);
    let pairs = Arc::new(read_ideas(&products, &customers));
    let (send, recv) = unbounded::<Event>();
    drop(recv);
    let mut generator = IdeaGenerator::new(pairs, 0, 1, 1, 1, send.clone());
    assert_eq!(generator.run().err(), Some(PipelineError::ChannelClosed));
    let packages = Arc::new(strings(&["left-pad"]));
    let mut downloader = PackageDownloader::new(packages, 0, 1, send);
    assert_eq!(downloader.run().err(), Some(PipelineError::ChannelClosed));
}
