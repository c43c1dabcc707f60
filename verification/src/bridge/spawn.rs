//! What starting the bridge child process needs: its command line and its
//! environment.
use vstd::prelude::*;
use crate::errors::OrchestratorError;
use crate::fields::Fields;

verus! {

/// The command line and environment of the bridge process.
#[derive(Debug)]
pub struct BridgeSpawnConfig {
    pub command: Vec<String>,
    pub env: Fields,
}

/// The program to start and its arguments: the command's first word and
/// the rest; an empty command is a configuration error.
pub fn spawn_parts(cfg: &BridgeSpawnConfig) -> (r: Result<(String, Vec<String>), OrchestratorError>)
    ensures
        cfg.command@.len() == 0 <==> r is Err,
        r matches Err(e) ==> (e matches OrchestratorError::Config(m) && m@
            == "bridge_cmd cannot be empty"@),
        r matches Ok(p) ==> p.0 == cfg.command@[0] && p.1@ == cfg.command@.drop_first(),
{
    if cfg.command.len() == 0 {
        return Err(OrchestratorError::Config(String::from_str("bridge_cmd cannot be empty")));
    }
    let mut args: Vec<String> = Vec::new();
    let mut i: usize = 1;
    while i < cfg.command.len()
        invariant
            1 <= i <= cfg.command.len(),
            args@ == cfg.command@.subrange(1, i as int),
        decreases cfg.command.len() - i,
    {
        args.push(cfg.command[i].clone());
        assert(cfg.command@.subrange(1, i + 1) =~= cfg.command@.subrange(1, i as int).push(
            cfg.command@[i as int],
        ));
        i = i + 1;
    }
    assert(cfg.command@.subrange(1, cfg.command@.len() as int) =~= cfg.command@.drop_first());
    Ok((cfg.command[0].clone(), args))
}

} // verus!
