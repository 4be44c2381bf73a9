use crate::download::{DownloadInfo, Downloadable, MultiDownload};
use vstd::prelude::*;
use vstd::string::StringExecFns;

verus! {

pub const SERVER: &'static str = "https://ftp.ncbi.nlm.nih.gov/genomes/refseq/vertebrate_mammalian/Homo_sapiens/reference/GCF_000001405.40_GRCh38.p14/";

pub const ALIGNMENTS_DIR: &'static str = "RefSeq_transcripts_alignments/";

pub const MD5FILE: &'static str = "md5checksums.txt";

pub const KNOWNFILE: &'static str = "GCF_000001405.40_GRCh38.p14_knownrefseq_alns.bam";

pub const MODELFILE: &'static str = "GCF_000001405.40_GRCh38.p14_modelrefseq_alns.bam";

pub const LOCALPATH: &'static str = "downloads/";

pub const BAI_SUFFIX: &'static str = ".bai";

/// Which RefSeq alignment set a file belongs to.
#[derive(Debug, Clone, Copy, PartialEq, Eq, Structural)]
pub enum AlnType {
    Known,
    Model,
}

/// The index companion of an alignment file.
pub struct BaiFile {
    pub dlinfo: DownloadInfo,
}

impl BaiFile {
    pub fn new(filename: String, server: String, localpath: String) -> (r: BaiFile)
        ensures
            r.dlinfo.filename@ == filename@,
            r.dlinfo.server@ == server@,
            r.dlinfo.localpath@ == localpath@,
    {
        let dlinfo = DownloadInfo::new(filename, server, localpath);
        BaiFile { dlinfo: dlinfo }
    }
}

/// An alignment data file, with its index file alongside.
pub struct BamFile {
    pub dlinfo: DownloadInfo,
    pub aln_type: AlnType,
    pub bai: BaiFile,
}

impl BamFile {
    /// The index sits beside the data file, under the data file's name with
    /// `.bai` appended.
    pub fn new(filename: String, server: String, localpath: String, aln_type: AlnType) -> (r:
        BamFile)
        ensures
            r.dlinfo.filename@ == filename@,
            r.dlinfo.server@ == server@,
            r.dlinfo.localpath@ == localpath@,
            r.aln_type == aln_type,
            r.bai.dlinfo.filename@ == filename@ + BAI_SUFFIX@,
            r.bai.dlinfo.server@ == server@,
            r.bai.dlinfo.localpath@ == localpath@,
    {
        let dlinfo = DownloadInfo::new(filename.clone(), server.clone(), localpath.clone());
        let bai_file = BaiFile::new(filename.concat(BAI_SUFFIX), server, localpath);
        BamFile { dlinfo: dlinfo, aln_type: aln_type, bai: bai_file }
    }
}

impl Downloadable for BamFile {
    open spec fn info(&self) -> Option<DownloadInfo> {
        Some(self.dlinfo)
    }

    fn download_info(&self) -> (r: Option<&DownloadInfo>) {
        Some(&self.dlinfo)
    }
}

impl Downloadable for BaiFile {
    open spec fn info(&self) -> Option<DownloadInfo> {
        Some(self.dlinfo)
    }

    fn download_info(&self) -> (r: Option<&DownloadInfo>) {
        Some(&self.dlinfo)
    }
}

/// One entry of a mixed pool: a data file's descriptor or an index file's.
pub enum AlnFileType {
    BAI(DownloadInfo),
    BAM(DownloadInfo),
}

impl Downloadable for AlnFileType {
    open spec fn info(&self) -> Option<DownloadInfo> {
        match self {
            AlnFileType::BAI(d) => Some(*d),
            AlnFileType::BAM(d) => Some(*d),
        }
    }

    fn download_info(&self) -> (r: Option<&DownloadInfo>) {
        match self {
            AlnFileType::BAI(d) => Some(d),
            AlnFileType::BAM(d) => Some(d),
        }
    }
}

/// Two descriptors carry the same three strings.
pub open spec fn same_info(a: DownloadInfo, b: DownloadInfo) -> bool {
    &&& a.filename@ == b.filename@
    &&& a.server@ == b.server@
    &&& a.localpath@ == b.localpath@
}

/// The pair of RefSeq alignment sets, known and model.
pub struct Alns {
    pub known: BamFile,
    pub model: BamFile,
}

impl Alns {
    pub fn new(known: BamFile, model: BamFile) -> (r: Alns)
        ensures
            r.known == known,
            r.model == model,
    {
        Alns { known: known, model: model }
    }

    /// The GRCh38.p14 alignment sets as published on the NCBI server, to be
    /// stored under `downloads/`.
    pub fn grch38() -> (r: Alns)
        ensures
            r.known.dlinfo.filename@ == KNOWNFILE@,
            r.model.dlinfo.filename@ == MODELFILE@,
            r.known.dlinfo.server@ == SERVER@ + ALIGNMENTS_DIR@,
            r.model.dlinfo.server@ == SERVER@ + ALIGNMENTS_DIR@,
            r.known.dlinfo.localpath@ == LOCALPATH@,
            r.model.dlinfo.localpath@ == LOCALPATH@,
            r.known.aln_type == AlnType::Known,
            r.model.aln_type == AlnType::Model,
            r.known.bai.dlinfo.filename@ == KNOWNFILE@ + BAI_SUFFIX@,
            r.model.bai.dlinfo.filename@ == MODELFILE@ + BAI_SUFFIX@,
            r.known.bai.dlinfo.server@ == SERVER@ + ALIGNMENTS_DIR@,
            r.model.bai.dlinfo.server@ == SERVER@ + ALIGNMENTS_DIR@,
            r.known.bai.dlinfo.localpath@ == LOCALPATH@,
            r.model.bai.dlinfo.localpath@ == LOCALPATH@,
    {
        let server = SERVER.to_string().concat(ALIGNMENTS_DIR);
        Alns::new(
            BamFile::new(KNOWNFILE.to_string(), server.clone(), LOCALPATH.to_string(), AlnType::Known),
            BamFile::new(MODELFILE.to_string(), server, LOCALPATH.to_string(), AlnType::Model),
        )
    }
}

/// The four entries, in spawn order: known data, model data, known index,
/// model index.
pub open spec fn alns_pool_ok(a: Alns, s: Seq<AlnFileType>) -> bool {
    &&& s.len() == 4
    &&& s[0] matches AlnFileType::BAM(d) && same_info(d, a.known.dlinfo)
    &&& s[1] matches AlnFileType::BAM(d) && same_info(d, a.model.dlinfo)
    &&& s[2] matches AlnFileType::BAI(d) && same_info(d, a.known.bai.dlinfo)
    &&& s[3] matches AlnFileType::BAI(d) && same_info(d, a.model.bai.dlinfo)
}

impl MultiDownload for Alns {
    type Item = AlnFileType;

    open spec fn pool_ok(&self, pool: Option<Seq<AlnFileType>>) -> bool {
        pool matches Some(s) && alns_pool_ok(*self, s)
    }

    fn download_pool(&self) -> (r: Option<Vec<AlnFileType>>) {
        let v = vec![
            AlnFileType::BAM(self.known.dlinfo.copied()),
            AlnFileType::BAM(self.model.dlinfo.copied()),
            AlnFileType::BAI(self.known.bai.dlinfo.copied()),
            AlnFileType::BAI(self.model.bai.dlinfo.copied()),
        ];
        Some(v)
    }
}

} // verus!
