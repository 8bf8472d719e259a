//! Where the statistics of containers come from.

use vstd::prelude::*;

verus! {

/// Where the first version of control groups keeps the statistics of containers.
pub const DOCKER_STATS_PATH_CGROUP_V1: &'static str = "/sys/fs/cgroup/cpuacct/docker";

/// Where the second version of control groups keeps the statistics of containers.
pub const DOCKER_STATS_PATH_CGROUP_V2: &'static str = "/sys/fs/cgroup/system.slice";

/// Where the statistics of containers come from.
#[derive(Debug, Clone, Copy, PartialEq, Eq, Structural)]
pub enum DockerStatsSource {
    CgroupV1,
    CgroupV2,
    Bollard,
}

impl DockerStatsSource {
    /// The name of the source.
    pub open spec fn name(self) -> Seq<char> {
        match self {
            DockerStatsSource::CgroupV1 => "CgroupV1"@,
            DockerStatsSource::CgroupV2 => "CgroupV2"@,
            DockerStatsSource::Bollard => "Bollard"@,
        }
    }

    /// The name of the source.
    pub fn as_str(&self) -> (r: &'static str)
        ensures
            r@ == self.name(),
    {
        match self {
            DockerStatsSource::CgroupV1 => "CgroupV1",
            DockerStatsSource::CgroupV2 => "CgroupV2",
            DockerStatsSource::Bollard => "Bollard",
        }
    }
}

/// Each source has its own name.
pub proof fn law_name_tells_the_source(s: DockerStatsSource)
    ensures
        s.name() == "CgroupV1"@ <==> s == DockerStatsSource::CgroupV1,
        s.name() == "CgroupV2"@ <==> s == DockerStatsSource::CgroupV2,
        s.name() == "Bollard"@ <==> s == DockerStatsSource::Bollard,
{
    reveal_strlit("CgroupV1");
    reveal_strlit("CgroupV2");
    reveal_strlit("Bollard");
    assert("CgroupV1"@[7] != "CgroupV2"@[7]);
    assert("Bollard"@[0] == 'B');
    assert("CgroupV1"@[0] == 'C');
    assert("CgroupV2"@[0] == 'C');
}

} // verus!
