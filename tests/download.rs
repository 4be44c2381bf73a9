use refseq_fetch::alignments::{AlnFileType, AlnType, Alns, BaiFile, BamFile};
use refseq_fetch::batch::{plan, plan_pool, shows_display, BatchReport};
use refseq_fetch::download::{
    local_status, removal_for, DownloadError, DownloadInfo, Downloadable, LocalFile, MultiDownload,
    Removal,
};
use refseq_fetch::style::{progress_style, row_style, PROGRESS_CHARS, PROGRESS_TEMPLATE};
use refseq_fetch::transfer::{Action, Event, Stage, Transfer, Verbose};

fn info(name: &str) -> DownloadInfo {
    DownloadInfo::new(name.to_string(), "http://host/base/".to_string(), "downloads/".to_string())
}

fn item(name: &str) -> BaiFile {
    BaiFile::new(name.to_string(), "http://host/base/".to_string(), "downloads/".to_string())
}

struct Bare;

impl Downloadable for Bare {
    fn info(&self) -> Option<DownloadInfo> {
        None
    }

    fn download_info(&self) -> Option<&DownloadInfo> {
        None
    }
}

fn drive(t: &mut Transfer, body: &[u64], total: Option<u64>) {
    t.step(Event::Response(200, total));
    t.step(Event::Created);
    for n in body {
        t.step(Event::Chunk(*n));
    }
    t.step(Event::EndOfBody);
    t.step(Event::Flushed);
}

#[test]
fn urls_are_plain_concatenation() {
    let d = info("a.bam");
    assert_eq!(d.serverfile(), Some("http://host/base/a.bam".to_string()));
    assert_eq!(d.localfile(), Some("downloads/a.bam".to_string()));
    let odd = DownloadInfo::new("x".to_string(), "http://h".to_string(), "dir".to_string());
    assert_eq!(odd.serverfile(), Some("http://hx".to_string()));
    assert_eq!(odd.localfile(), Some("dirx".to_string()));
}

#[test]
fn items_delegate_to_their_descriptor() {
    let bam = BamFile::new("k.bam".to_string(), "s/".to_string(), "l/".to_string(), AlnType::Known);
    assert_eq!(bam.serverfile(), Some("s/k.bam".to_string()));
    assert_eq!(bam.localfile(), Some("l/k.bam".to_string()));
    assert_eq!(bam.bai.serverfile(), Some("s/k.bam.bai".to_string()));
    assert_eq!(bam.bai.localfile(), Some("l/k.bam.bai".to_string()));
    assert_eq!(bam.aln_type, AlnType::Known);
}

#[test]
fn item_without_descriptor_fails_everywhere() {
    assert_eq!(Bare.serverfile(), None);
    assert_eq!(Bare.localfile(), None);
    assert_eq!(Bare.is_local(), None);
    assert!(matches!(Bare.removal(), Err(DownloadError::MissingDownloadInfo)));
}

#[test]
fn existence_check_reads_the_file_system() {
    let here = DownloadInfo::new(String::new(), String::new(), "/".to_string());
    assert_eq!(here.is_local(), Some(LocalFile::Exists));
    let gone = info("no_such_file_anywhere.bam");
    assert_eq!(gone.is_local(), Some(LocalFile::Absent));
    assert!(matches!(gone.removal(), Ok(Removal::Nothing)));
}

#[test]
fn status_and_removal_steps() {
    assert_eq!(local_status(Some(true)), Some(LocalFile::Exists));
    assert_eq!(local_status(Some(false)), Some(LocalFile::Absent));
    assert_eq!(local_status(None), None);
    let d = info("a.bam");
    match removal_for(&d, Some(LocalFile::Exists)) {
        Ok(Removal::Delete(p)) => assert_eq!(p, "downloads/a.bam"),
        other => panic!("unexpected {:?}", other),
    }
    assert!(matches!(removal_for(&d, Some(LocalFile::Absent)), Ok(Removal::Nothing)));
    assert!(matches!(
        removal_for(&d, None),
        Err(DownloadError::ExistenceCheckFailed)
    ));
}

#[test]
fn second_removal_is_a_no_op() {
    let d = info("a.bam");
    let first = removal_for(&d, Some(LocalFile::Exists));
    assert!(matches!(first, Ok(Removal::Delete(_))));
    let second = removal_for(&d, Some(LocalFile::Absent));
    assert!(matches!(second, Ok(Removal::Nothing)));
}

#[test]
fn alignment_pool_has_four_items_in_order() {
    let a = Alns::grch38();
    let pool = a.download_pool().unwrap();
    assert_eq!(pool.len(), 4);
    assert!(matches!(pool[0], AlnFileType::BAM(_)));
    assert!(matches!(pool[1], AlnFileType::BAM(_)));
    assert!(matches!(pool[2], AlnFileType::BAI(_)));
    assert!(matches!(pool[3], AlnFileType::BAI(_)));
    let base = "https://ftp.ncbi.nlm.nih.gov/genomes/refseq/vertebrate_mammalian/Homo_sapiens/reference/GCF_000001405.40_GRCh38.p14/RefSeq_transcripts_alignments/";
    assert_eq!(
        pool[0].serverfile().unwrap(),
        format!("{}GCF_000001405.40_GRCh38.p14_knownrefseq_alns.bam", base)
    );
    assert_eq!(
        pool[3].localfile().unwrap(),
        "downloads/GCF_000001405.40_GRCh38.p14_modelrefseq_alns.bam.bai"
    );
}

#[test]
fn transfer_of_known_size_writes_every_byte() {
    let mut t = Transfer::start(&BaiFile::new("f".to_string(), "u/".to_string(), "p/".to_string()), Verbose::Loud).unwrap();
    assert!(matches!(t.next_action(), Action::Get(ref u) if u == "u/f"));
    t.step(Event::Response(200, Some(1_048_576)));
    assert!(matches!(t.next_action(), Action::Create(ref p) if p == "p/f"));
    t.step(Event::Created);
    assert!(matches!(t.next_action(), Action::Read));
    for _ in 0..16 {
        t.step(Event::Chunk(65_536));
    }
    t.step(Event::EndOfBody);
    assert!(matches!(t.next_action(), Action::Flush));
    t.step(Event::Flushed);
    assert!(matches!(t.next_action(), Action::Finish));
    assert_eq!(t.outcome(), Some(Ok(1_048_576)));
    let p = t.progress().unwrap();
    assert_eq!(p.position, 1_048_576);
    assert_eq!(p.length, 1_048_576);
    assert!(p.finished);
}

#[test]
fn unknown_length_counts_as_zero() {
    let mut t = Transfer::start(&item("a"), Verbose::Ext).unwrap();
    drive(&mut t, &[3, 4], None);
    assert_eq!(t.total, 0);
    assert_eq!(t.outcome(), Some(Ok(7)));
}

#[test]
fn quiet_transfer_shows_nothing() {
    let mut t = Transfer::start(&item("a"), Verbose::Quiet).unwrap();
    drive(&mut t, &[5], Some(5));
    assert_eq!(t.progress(), None);
    assert_eq!(t.outcome(), Some(Ok(5)));
}

#[test]
fn missing_location_fails_before_any_request() {
    assert!(matches!(
        Transfer::start(&Bare, Verbose::Quiet),
        Err(DownloadError::MissingServerPath)
    ));
}

#[test]
fn each_failure_has_its_cause() {
    let cases = [
        (vec![Event::RequestFailed], DownloadError::Network),
        (vec![Event::Response(404, Some(10))], DownloadError::HttpStatus),
        (vec![Event::Response(500, None)], DownloadError::HttpStatus),
        (vec![Event::Response(200, None), Event::CreateFailed], DownloadError::FileCreate),
        (vec![Event::Response(200, None), Event::Created, Event::ReadFailed], DownloadError::Network),
        (vec![Event::Response(200, None), Event::Created, Event::WriteFailed], DownloadError::FileWrite),
        (
            vec![Event::Response(200, None), Event::Created, Event::EndOfBody, Event::FlushFailed],
            DownloadError::FileWrite,
        ),
        (
            vec![Event::Response(200, None), Event::Created, Event::Chunk(u64::MAX), Event::Chunk(1)],
            DownloadError::TooLarge,
        ),
    ];
    for (events, cause) in cases {
        let mut t = Transfer::start(&item("a"), Verbose::Quiet).unwrap();
        for ev in events {
            t.step(ev);
        }
        assert_eq!(t.stage, Stage::Failed(cause));
        assert_eq!(t.outcome(), Some(Err(cause)));
        assert!(matches!(t.next_action(), Action::Finish));
    }
}

#[test]
fn out_of_turn_event_changes_nothing() {
    let mut t = Transfer::start(&item("a"), Verbose::Quiet).unwrap();
    t.step(Event::Chunk(10));
    assert_eq!(t.stage, Stage::Requesting);
    assert_eq!(t.written, 0);
    assert_eq!(t.outcome(), None);
}

#[test]
fn empty_pool_is_no_download_pool() {
    let none: Option<Vec<BaiFile>> = None;
    assert!(matches!(plan_pool(none, Verbose::Loud), Err(DownloadError::NoDownloadPool)));
    let empty: Vec<BaiFile> = vec![];
    assert!(matches!(plan_pool(Some(empty), Verbose::Quiet), Err(DownloadError::NoDownloadPool)));
}

#[test]
fn batch_units_are_independent() {
    let pool = vec![item("a"), item("b"), item("c"), item("d")];
    let mut units = plan_pool(Some(pool), Verbose::Loud).unwrap();
    assert_eq!(units.len(), 4);
    let mut outcomes = vec![];
    for (i, unit) in units.iter_mut().enumerate() {
        let t = unit.as_mut().unwrap();
        assert_eq!(t.verbose, Verbose::Ext);
        if i == 0 {
            t.step(Event::RequestFailed);
        } else {
            drive(t, &[10, 20], Some(30));
        }
        outcomes.push(t.outcome().unwrap());
    }
    let report = BatchReport::new(outcomes);
    assert_eq!(report.succeeded(), 3);
    assert_eq!(report.failed(), 1);
    assert!(!report.all_succeeded());
    assert_eq!(report.outcomes[0], Err(DownloadError::Network));
    assert_eq!(report.outcomes[1], Ok(30));
}

#[test]
fn batch_plan_keeps_item_errors_per_unit() {
    let units = plan_pool(Some(vec![Bare, Bare]), Verbose::Quiet).unwrap();
    assert_eq!(units.len(), 2);
    assert!(matches!(units[1], Err(DownloadError::MissingServerPath)));
    let units = plan(&Alns::grch38(), Verbose::Quiet).unwrap();
    assert_eq!(units.len(), 4);
    assert_eq!(units[2].as_ref().unwrap().verbose, Verbose::Quiet);
    assert!(units[2].as_ref().unwrap().url.ends_with(".bam.bai"));
}

#[test]
fn display_only_when_not_quiet() {
    assert!(!shows_display(Verbose::Quiet));
    assert!(shows_display(Verbose::Loud));
    assert!(shows_display(Verbose::Ext));
}

#[test]
fn every_item_draws_the_same_row_style() {
    let style = row_style();
    assert_eq!(style.template, PROGRESS_TEMPLATE);
    assert_eq!(style.chars, "##-");
    let of_item = item("a").pb_style();
    assert_eq!(of_item.template, PROGRESS_TEMPLATE);
    assert_eq!(of_item.chars, PROGRESS_CHARS);
    assert_eq!(Bare.pb_style().template, PROGRESS_TEMPLATE);
    let _ = progress_style(&style);
}

#[test]
fn error_status_keeps_total_unset() {
    let mut t = Transfer::start(&item("a"), Verbose::Loud).unwrap();
    t.step(Event::Response(503, Some(99)));
    assert_eq!(t.total, 0);
    assert_eq!(t.outcome(), Some(Err(DownloadError::HttpStatus)));
    let mut ok = Transfer::start(&item("a"), Verbose::Loud).unwrap();
    ok.step(Event::Response(204, Some(0)));
    assert_eq!(ok.stage, Stage::Opening);
}

#[test]
fn chunking_does_not_change_the_size() {
    let mut one = Transfer::start(&item("a"), Verbose::Quiet).unwrap();
    drive(&mut one, &[1_048_576], Some(1_048_576));
    let mut many = Transfer::start(&item("a"), Verbose::Quiet).unwrap();
    drive(&mut many, &[1, 1_048_000, 575], Some(1_048_576));
    assert_eq!(one.outcome(), Some(Ok(1_048_576)));
    assert_eq!(many.outcome(), Some(Ok(1_048_576)));
}

#[test]
fn leaving_an_item_out_keeps_the_others() {
    let full = plan_pool(Some(vec![item("a"), item("b"), item("c")]), Verbose::Loud).unwrap();
    let rest = plan_pool(Some(vec![item("a"), item("c")]), Verbose::Loud).unwrap();
    assert_eq!(rest.len(), 2);
    assert_eq!(rest[0].as_ref().unwrap().url, full[0].as_ref().unwrap().url);
    assert_eq!(rest[1].as_ref().unwrap().url, full[2].as_ref().unwrap().url);
    assert_eq!(rest[1].as_ref().unwrap().path, "downloads/c");
}

#[test]
fn index_files_share_server_and_directory() {
    let a = Alns::grch38();
    let base = "https://ftp.ncbi.nlm.nih.gov/genomes/refseq/vertebrate_mammalian/Homo_sapiens/reference/GCF_000001405.40_GRCh38.p14/RefSeq_transcripts_alignments/";
    assert_eq!(
        a.known.bai.serverfile().unwrap(),
        format!("{}GCF_000001405.40_GRCh38.p14_knownrefseq_alns.bam.bai", base)
    );
    assert_eq!(
        a.model.bai.localfile().unwrap(),
        "downloads/GCF_000001405.40_GRCh38.p14_modelrefseq_alns.bam.bai"
    );
}
