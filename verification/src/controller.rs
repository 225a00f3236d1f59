use vstd::prelude::*;

verus! {

// Controller structure, mirroring the nodejs-poolController layout.

#[allow(non_snake_case)]
#[derive(Debug)]
pub struct Comms {
    pub c_type: String,
    pub portId: u32,
    pub enabled: bool,
    pub rs485Port: String,
}

#[derive(Debug)]
pub struct BackupInterval {
    pub days: u32,
    pub hours: u32,
}

#[allow(non_snake_case)]
#[derive(Debug)]
pub struct Backup {
    pub automatic: bool,
    pub interval: BackupInterval,
    pub keepCount: u32,
    pub njsPC: bool,
    pub servers: Vec<String>,
}

#[derive(Debug)]
pub struct Controller {
    pub comms: Comms,
    pub backup: Backup,
}

impl Controller {
    /// The default controller description: an enabled RS-485 port on the
    /// first USB serial adapter and no automatic backups.
    pub fn new() -> (r: Controller)
        ensures
            r.comms.c_type@ == "RS485"@,
            r.comms.portId == 0,
            r.comms.enabled == true,
            r.comms.rs485Port@ == "/dev/ttyUSB0"@,
            r.backup.automatic == false,
            r.backup.interval.days == 40,
            r.backup.interval.hours == 0,
            r.backup.keepCount == 0,
            r.backup.njsPC == false,
            r.backup.servers@.len() == 0,
    {
        Controller {
            comms: Comms {
                c_type: "RS485".to_owned(),
                portId: 0,
                enabled: true,
                rs485Port: "/dev/ttyUSB0".to_owned(),
            },
            backup: Backup {
                automatic: false,
                interval: BackupInterval { days: 40, hours: 0 },
                keepCount: 0,
                njsPC: false,
                servers: Vec::new(),
            },
        }
    }
}

} // verus!
